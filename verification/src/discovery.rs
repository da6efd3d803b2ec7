//! Finding the control channel's address: what a poll of the introspection endpoint
//! yields, and when to poll again, wait or give up.
//!
//! The caller performs the actions (the HTTP request, the wait) and reports each outcome
//! as the next event.

use vstd::prelude::*;
use vstd::string::*;
use crate::decimal::{decimal, push_decimal};
use crate::json::{json_of_text, parse, Json, JsonView};

verus! {

/// The debugging port unless the caller names one.
pub const DEFAULT_PORT: u16 = 9222;

/// How often the endpoint is polled unless the caller says otherwise.
pub const DEFAULT_MAX_ATTEMPTS: u32 = 20;

/// How long to wait between two polls unless the caller says otherwise, in milliseconds.
pub const DEFAULT_INTERVAL_MILLIS: u64 = 1000;

/// One record of the introspection endpoint: a target and, where it can be debugged, the
/// address of its control channel.
#[derive(Debug)]
pub struct TargetDescriptor {
    pub address: Option<String>,
}

impl View for TargetDescriptor {
    type V = Option<Seq<char>>;

    open spec fn view(&self) -> Option<Seq<char>> {
        match self.address {
            Some(a) => Some(a@),
            None => None,
        }
    }
}

/// The addresses of a list of descriptors, in order.
pub open spec fn addresses(targets: Seq<TargetDescriptor>) -> Seq<Option<Seq<char>>> {
    targets.map_values(|t: TargetDescriptor| t@)
}

/// An address is usable when it is present and not empty.
pub open spec fn usable(address: Option<Seq<char>>) -> bool {
    address matches Some(a) && a.len() > 0
}

/// The first usable address at or after position `from`.
pub open spec fn selected_from(targets: Seq<Option<Seq<char>>>, from: int) -> Option<Seq<char>>
    decreases targets.len() - from,
{
    if from < 0 || from >= targets.len() {
        None
    } else if usable(targets[from]) {
        targets[from]
    } else {
        selected_from(targets, from + 1)
    }
}

/// The first usable address of the list.
pub open spec fn selected(targets: Seq<Option<Seq<char>>>) -> Option<Seq<char>> {
    selected_from(targets, 0)
}

/// The address in a descriptor's JSON: its `webSocketDebuggerUrl` member where that is
/// text. Anything else, a value that is no object included, has no address.
pub open spec fn descriptor_of(doc: JsonView) -> Option<Seq<char>> {
    match doc.member("webSocketDebuggerUrl"@) {
        Some(a) => a.text(),
        None => None,
    }
}

/// The descriptors in the body of the endpoint's answer: a JSON array holds one per
/// element, anything else holds none and is malformed.
pub open spec fn targets_of(doc: JsonView) -> Option<Seq<Option<Seq<char>>>> {
    match doc.items() {
        Some(items) => Some(items.map_values(|d: JsonView| descriptor_of(d))),
        None => None,
    }
}

/// The URL of the introspection endpoint on the local machine.
pub open spec fn endpoint_text(port: nat) -> Seq<char> {
    "http://127.0.0.1:"@ + decimal(port) + "/json"@
}

/// The URL to poll for the debugging port `port`.
pub fn endpoint_url(port: u16) -> (r: String)
    ensures
        r@ == endpoint_text(port as nat),
{
    let mut r = String::from_str("http://127.0.0.1:");
    push_decimal(&mut r, port as u64);
    r.append("/json");
    r
}

/// Picks the address of the first descriptor that has a usable one.
pub fn select_address(targets: &Vec<TargetDescriptor>) -> (r: Option<String>)
    ensures
        match r {
            Some(a) => selected(addresses(targets@)) == Some(a@),
            None => selected(addresses(targets@)) is None,
        },
{
    let mut i: usize = 0;
    while i < targets.len()
        invariant
            i <= targets.len(),
            selected(addresses(targets@)) == selected_from(addresses(targets@), i as int),
        decreases targets.len() - i,
    {
        match &targets[i].address {
            Some(a) => {
                if !a.as_str().is_empty() {
                    return Some(a.clone());
                }
            },
            None => {},
        }
        i += 1;
    }
    None
}

/// Reads one descriptor.
pub fn decode_descriptor(doc: &Json) -> (r: TargetDescriptor)
    ensures
        r@ == descriptor_of(doc@),
{
    let address = match doc.get("webSocketDebuggerUrl") {
        Some(a) => match a.as_text() {
            Some(t) => Some(t.clone()),
            None => None,
        },
        None => None,
    };
    TargetDescriptor { address }
}

/// What an optional list of descriptors looks like to a contract.
pub open spec fn targets_view(targets: Option<Vec<TargetDescriptor>>) -> Option<
    Seq<Option<Seq<char>>>,
> {
    match targets {
        Some(ts) => Some(addresses(ts@)),
        None => None,
    }
}

/// Reads the descriptors out of the document in the endpoint's answer.
pub fn decode_targets(doc: &Json) -> (r: Option<Vec<TargetDescriptor>>)
    ensures
        targets_view(r) == targets_of(doc@),
{
    match doc.as_items() {
        Some(items) => {
            let mut targets: Vec<TargetDescriptor> = Vec::new();
            let mut i: usize = 0;
            while i < items.len()
                invariant
                    i <= items.len(),
                    targets.len() == i,
                    forall|k: int| 0 <= k < i ==> (#[trigger] targets[k])@ == descriptor_of(items[k]@),
                decreases items.len() - i,
            {
                targets.push(decode_descriptor(&items[i]));
                i += 1;
            }
            assert(addresses(targets@) =~= targets_of(doc@).unwrap());
            Some(targets)
        },
        None => None,
    }
}

/// The descriptors in the body `body`, given the document that was read from it, if one
/// was.
pub open spec fn body_targets(doc: Option<JsonView>) -> Option<Seq<Option<Seq<char>>>> {
    match doc {
        Some(d) => targets_of(d),
        None => None,
    }
}

/// Reads the descriptors out of the body of the endpoint's answer.
pub fn parse_targets(body: &str) -> (r: Option<Vec<TargetDescriptor>>)
    ensures
        targets_view(r) == body_targets(json_of_text(body@)),
{
    match parse(body) {
        Some(doc) => decode_targets(&doc),
        None => None,
    }
}

/// The first descriptor with a usable address is the one selected, whatever stands before
/// it (absent or empty addresses) and whatever comes after it.
pub proof fn lemma_selects_first_usable(targets: Seq<Option<Seq<char>>>, i: int)
    requires
        0 <= i < targets.len(),
        usable(targets[i]),
        forall|j: int| 0 <= j < i ==> !usable(#[trigger] targets[j]),
    ensures
        selected(targets) == targets[i],
{
    lemma_skips_unusable(targets, 0, i);
}

/// Unusable addresses are passed over.
pub proof fn lemma_skips_unusable(targets: Seq<Option<Seq<char>>>, from: int, to: int)
    requires
        0 <= from <= to <= targets.len(),
        forall|j: int| from <= j < to ==> !usable(#[trigger] targets[j]),
    ensures
        selected_from(targets, from) == selected_from(targets, to),
    decreases to - from,
{
    if from < to {
        lemma_skips_unusable(targets, from + 1, to);
    }
}

/// Nothing is selected exactly when no descriptor has a usable address.
pub proof fn lemma_none_selected(targets: Seq<Option<Seq<char>>>)
    ensures
        selected(targets) is None <==> forall|j: int|
            0 <= j < targets.len() ==> !usable(#[trigger] targets[j]),
{
    if forall|j: int| 0 <= j < targets.len() ==> !usable(#[trigger] targets[j]) {
        lemma_skips_unusable(targets, 0, targets.len() as int);
    } else {
        let j = choose|j: int| 0 <= j < targets.len() && usable(#[trigger] targets[j]);
        lemma_first_exists(targets, j);
    }
}

/// Where some descriptor is usable, one is selected, and it is usable.
pub proof fn lemma_first_exists(targets: Seq<Option<Seq<char>>>, j: int)
    requires
        0 <= j < targets.len(),
        usable(targets[j]),
    ensures
        usable(selected(targets)),
    decreases j,
{
    if exists|k: int| 0 <= k < j && usable(#[trigger] targets[k]) {
        let k = choose|k: int| 0 <= k < j && usable(#[trigger] targets[k]);
        lemma_first_exists(targets, k);
    } else {
        lemma_selects_first_usable(targets, j);
    }
}

/// What comes after a usable descriptor does not change the selection.
pub proof fn lemma_later_ignored(
    head: Seq<Option<Seq<char>>>,
    tail: Seq<Option<Seq<char>>>,
    other: Seq<Option<Seq<char>>>,
)
    requires
        selected(head) is Some,
    ensures
        selected(head + tail) == selected(head),
        selected(head + other) == selected(head + tail),
{
    lemma_prefix_selection(head, tail, 0);
    lemma_prefix_selection(head, other, 0);
}

proof fn lemma_prefix_selection(
    head: Seq<Option<Seq<char>>>,
    tail: Seq<Option<Seq<char>>>,
    from: int,
)
    requires
        0 <= from <= head.len(),
        selected_from(head, from) is Some,
    ensures
        selected_from(head + tail, from) == selected_from(head, from),
    decreases head.len() - from,
{
    if from < head.len() {
        assert((head + tail)[from] == head[from]);
        if !usable(head[from]) {
            lemma_prefix_selection(head, tail, from + 1);
        }
    }
}

} // verus!
