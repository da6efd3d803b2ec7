//! What can go wrong, and the one line that tells the user so.

use vstd::prelude::*;
use vstd::string::*;

verus! {

/// A failure of the bridge. Those before the loop has begun end the program; the others
/// end one turn of the loop and no more.
#[derive(Debug)]
pub enum Failure {
    /// The platform is one on which no target can be started.
    UnsupportedPlatform,
    /// The target's executable is in none of the places searched; the text is its name.
    AppNotFound(String),
    /// The target could not be started; the text is its name.
    LaunchFailed(String),
    /// No usable endpoint appeared within the attempts allowed.
    DiscoveryTimeout,
    /// The control channel could not be opened; the text says why.
    ChannelOpen(String),
    /// One write or read on the channel failed; the text says why.
    Transport(String),
    /// The channel is closed: nothing can be sent on it any more.
    ChannelClosed,
    /// What came back is not a response.
    MalformedResponse,
    /// Reading a line failed; the text says why.
    Input(String),
    /// A step was asked of a session that is busy with another one.
    OutOfTurn,
}

/// The mathematical value of a [`Failure`]: texts as sequences of characters.
pub enum FailureView {
    UnsupportedPlatform,
    AppNotFound(Seq<char>),
    LaunchFailed(Seq<char>),
    DiscoveryTimeout,
    ChannelOpen(Seq<char>),
    Transport(Seq<char>),
    ChannelClosed,
    MalformedResponse,
    Input(Seq<char>),
    OutOfTurn,
}

impl View for Failure {
    type V = FailureView;

    open spec fn view(&self) -> FailureView {
        match self {
            Failure::UnsupportedPlatform => FailureView::UnsupportedPlatform,
            Failure::AppNotFound(n) => FailureView::AppNotFound(n@),
            Failure::LaunchFailed(n) => FailureView::LaunchFailed(n@),
            Failure::DiscoveryTimeout => FailureView::DiscoveryTimeout,
            Failure::ChannelOpen(d) => FailureView::ChannelOpen(d@),
            Failure::Transport(d) => FailureView::Transport(d@),
            Failure::ChannelClosed => FailureView::ChannelClosed,
            Failure::MalformedResponse => FailureView::MalformedResponse,
            Failure::Input(d) => FailureView::Input(d@),
            Failure::OutOfTurn => FailureView::OutOfTurn,
        }
    }
}

impl FailureView {
    /// Whether the program ends on this failure.
    pub open spec fn fatal(self) -> bool {
        self is UnsupportedPlatform || self is AppNotFound || self is LaunchFailed || self
            is DiscoveryTimeout || self is ChannelOpen
    }

    /// The line shown for this failure.
    pub open spec fn message(self) -> Seq<char> {
        match self {
            FailureView::UnsupportedPlatform => "[!] Windows is not supported yet."@,
            FailureView::AppNotFound(n) => "[!] Could not find "@ + n
                + " in any of the standard locations"@,
            FailureView::LaunchFailed(n) => "[!] Failed to start app: "@ + n,
            FailureView::DiscoveryTimeout => "[!] Failed to retrieve WebSocket"@,
            FailureView::ChannelOpen(d) => "[!] WebSocket Connection Failed: "@ + d,
            FailureView::Transport(d) => "[!] WebSocket transmission failure: "@ + d,
            FailureView::ChannelClosed => "[!] WebSocket connection is closed"@,
            FailureView::MalformedResponse => "[!] Malformed response"@,
            FailureView::Input(d) => "[!] Input error: "@ + d,
            FailureView::OutOfTurn => "[!] Another evaluation is in flight"@,
        }
    }
}

impl Failure {
    /// Whether the program ends on this failure.
    pub fn is_fatal(&self) -> (r: bool)
        ensures
            r == self@.fatal(),
    {
        match self {
            Failure::UnsupportedPlatform => true,
            Failure::AppNotFound(_) => true,
            Failure::LaunchFailed(_) => true,
            Failure::DiscoveryTimeout => true,
            Failure::ChannelOpen(_) => true,
            _ => false,
        }
    }

    /// The line to show for this failure.
    pub fn message(&self) -> (r: String)
        ensures
            r@ == self@.message(),
    {
        match self {
            Failure::UnsupportedPlatform => String::from_str("[!] Windows is not supported yet."),
            Failure::AppNotFound(n) => String::from_str("[!] Could not find ").concat(
                n.as_str(),
            ).concat(" in any of the standard locations"),
            Failure::LaunchFailed(n) => String::from_str("[!] Failed to start app: ").concat(
                n.as_str(),
            ),
            Failure::DiscoveryTimeout => String::from_str("[!] Failed to retrieve WebSocket"),
            Failure::ChannelOpen(d) => String::from_str("[!] WebSocket Connection Failed: ").concat(
                d.as_str(),
            ),
            Failure::Transport(d) => String::from_str(
                "[!] WebSocket transmission failure: ",
            ).concat(d.as_str()),
            Failure::ChannelClosed => String::from_str("[!] WebSocket connection is closed"),
            Failure::MalformedResponse => String::from_str("[!] Malformed response"),
            Failure::Input(d) => String::from_str("[!] Input error: ").concat(d.as_str()),
            Failure::OutOfTurn => String::from_str("[!] Another evaluation is in flight"),
        }
    }
}

/// Every failure has something to say: no failure is shown as an empty line.
pub proof fn lemma_message_not_empty(failure: FailureView)
    ensures
        failure.message().len() > 0,
{
    reveal_strlit("[!] Windows is not supported yet.");
    reveal_strlit("[!] Could not find ");
    reveal_strlit("[!] Failed to start app: ");
    reveal_strlit("[!] Failed to retrieve WebSocket");
    reveal_strlit("[!] WebSocket Connection Failed: ");
    reveal_strlit("[!] WebSocket transmission failure: ");
    reveal_strlit("[!] WebSocket connection is closed");
    reveal_strlit("[!] Malformed response");
    reveal_strlit("[!] Input error: ");
    reveal_strlit("[!] Another evaluation is in flight");
}

} // verus!
