//! The two roles of the handshake as state machines. Each step takes what
//! the transport delivered and says what to do next; the caller performs the
//! action and feeds back the next event.
use crate::protocol::{encoding, parse, DecodeError, Message, MessageView};
use crate::solution::{
    candidate, is_first_solution, is_valid_solution, verify_outcome, Challenge, Solution,
    SolutionError, VerificationStatus, MAX_LEADING_ZEROS,
};
use vstd::prelude::*;

verus! {

/// The target the responder sets in every puzzle it hands out.
pub const RESPONDER_DIFFICULTY: u8 = 1;

/// What the transport delivered.
#[derive(Debug, Clone, PartialEq, Eq)]
pub enum Event {
    /// One whole frame.
    Frame(Vec<u8>),
    /// The stream ended.
    Closed,
    /// The stream failed.
    TransportFault,
}

/// Why a handshake stopped.
#[derive(Debug, Clone, Copy, PartialEq, Eq, Structural)]
pub enum HandshakeError {
    /// The puzzle could not be solved, or the solution was refused.
    Solution(SolutionError),
    /// A frame held no message.
    Decode(DecodeError),
    /// The stream failed.
    Transport,
    /// The stream ended while a message was awaited.
    UnexpectedClose,
    /// The solution does not meet the puzzle's target.
    ProtocolViolation,
}

/// What the caller does next.
#[derive(Debug, Clone, PartialEq, Eq)]
pub enum Action {
    /// Send this frame, then wait for the next event.
    Send(Vec<u8>),
    /// Wait for the next event.
    Wait,
    /// Pick a response text and hand it to `Responder::answer`.
    PickWisdom,
    /// The handshake succeeded with this text.
    Finish(String),
    /// The handshake failed; close the connection.
    Abort(HandshakeError),
}

/// The initiator's states.
#[derive(Debug, Clone, Copy, PartialEq, Eq, Structural)]
pub enum Initiator {
    AwaitingChallenge,
    AwaitingWisdom,
    Done,
    Failed,
}

/// The responder's states.
#[derive(Debug, Clone, Copy, PartialEq, Eq, Structural)]
pub enum Responder {
    AwaitingHello,
    AwaitingSolution(Challenge),
    Verified,
    Done,
    Failed,
}

/// The outcome of an event that is not a frame, in a state that awaits one.
pub open spec fn on_stream_end(event: Event, action: Action) -> bool {
    match event {
        Event::Closed => action == Action::Abort(HandshakeError::UnexpectedClose),
        Event::TransportFault => action == Action::Abort(HandshakeError::Transport),
        Event::Frame(_) => true,
    }
}

/// `b` is the frame of the first solution of `c`.
pub open spec fn is_solution_frame(b: Seq<u8>, c: Challenge) -> bool {
    exists|sol: Solution| #[trigger]
        is_first_solution(sol, c) && b == encoding(MessageView::Solution(sol))
}

/// What the initiator does with a decoded message in state `s`.
pub open spec fn initiator_on_message(
    s: Initiator,
    m: MessageView,
    next: Initiator,
    action: Action,
) -> bool {
    match (s, m) {
        (Initiator::AwaitingChallenge, MessageView::Challenge(c)) => match action {
            Action::Send(b) => {
                &&& next == Initiator::AwaitingWisdom
                &&& is_solution_frame(b@, c)
            },
            Action::Abort(HandshakeError::Solution(SolutionError::ChallengeTargetIncorrect(n))) => {
                &&& next == Initiator::Failed
                &&& n == c.n_leading_zeros
                &&& n > MAX_LEADING_ZEROS
            },
            Action::Abort(HandshakeError::Solution(SolutionError::NonceSpaceExhausted)) => {
                &&& next == Initiator::Failed
                &&& c.n_leading_zeros <= MAX_LEADING_ZEROS
                &&& forall|k: u64| !is_valid_solution(#[trigger] candidate(c, k), c)
            },
            _ => false,
        },
        (Initiator::AwaitingWisdom, MessageView::Wisdom(t)) => {
            &&& next == Initiator::Done
            &&& action is Finish
            &&& action->Finish_0@ == t
        },
        _ => next == s && action is Wait,
    }
}

/// What the responder does with a decoded message in state `s`; `next` and
/// `action` are what it did.
pub open spec fn responder_on_message(
    s: Responder,
    m: MessageView,
    next: Responder,
    action: Action,
) -> bool {
    match (s, m) {
        (Responder::AwaitingHello, MessageView::Hello) => {
            &&& next is AwaitingSolution
            &&& next->AwaitingSolution_0.n_leading_zeros == RESPONDER_DIFFICULTY
            &&& action is Send
            &&& action->Send_0@ == encoding(MessageView::Challenge(next->AwaitingSolution_0))
        },
        (Responder::AwaitingSolution(c), MessageView::Solution(sol)) => match verify_outcome(
            sol,
            c,
        ) {
            Ok(true) => next == Responder::Verified && action is PickWisdom,
            Ok(false) => next == Responder::Failed && action == Action::Abort(
                HandshakeError::ProtocolViolation,
            ),
            Err(e) => next == Responder::Failed && action == Action::Abort(
                HandshakeError::Solution(e),
            ),
        },
        _ => next == s && action is Wait,
    }
}

impl Initiator {
    pub open spec fn is_receiving(self) -> bool {
        self is AwaitingChallenge || self is AwaitingWisdom
    }

    /// Opens the handshake: the state after sending `Hello`, and its frame.
    pub fn start() -> (r: (Initiator, Vec<u8>))
        ensures
            r.0 == Initiator::AwaitingChallenge,
            r.1@ == encoding(MessageView::Hello),
    {
        (Initiator::AwaitingChallenge, Message::Hello.encode())
    }

    /// Takes one event: a puzzle is solved and answered, text ends the
    /// handshake, other messages are passed over, and a bad frame or the end
    /// of the stream is fatal.
    pub fn step(self, event: Event) -> (r: (Initiator, Action))
        ensures
            !self.is_receiving() ==> r.0 == self && r.1 is Wait,
            self.is_receiving() && !(event is Frame) ==> r.0 == Initiator::Failed && on_stream_end(
                event,
                r.1,
            ),
            self.is_receiving() && event is Frame ==> match parse(event->Frame_0@) {
                None => r.0 == Initiator::Failed && r.1 == Action::Abort(
                    HandshakeError::Decode(DecodeError),
                ),
                Some(m) => initiator_on_message(self, m, r.0, r.1),
            },
    {
        if !(self == Initiator::AwaitingChallenge || self == Initiator::AwaitingWisdom) {
            return (self, Action::Wait);
        }
        let bytes = match event {
            Event::Frame(bytes) => bytes,
            Event::Closed => {
                return (Initiator::Failed, Action::Abort(HandshakeError::UnexpectedClose));
            },
            Event::TransportFault => {
                return (Initiator::Failed, Action::Abort(HandshakeError::Transport));
            },
        };
        let message = match Message::decode(bytes.as_slice()) {
            Ok(m) => m,
            Err(e) => {
                return (Initiator::Failed, Action::Abort(HandshakeError::Decode(e)));
            },
        };
        match (self, message) {
            (Initiator::AwaitingChallenge, Message::Challenge(c)) => match Solution::find(&c) {
                Ok(sol) => {
                    let frame = Message::Solution(sol).encode();
                    assert(is_first_solution(sol, c) && frame@ == encoding(MessageView::Solution(sol)));
                    assert(is_solution_frame(frame@, c));
                    (Initiator::AwaitingWisdom, Action::Send(frame))
                },
                Err(e) => (Initiator::Failed, Action::Abort(HandshakeError::Solution(e))),
            },
            (Initiator::AwaitingWisdom, Message::Wisdom(t)) => (Initiator::Done, Action::Finish(t)),
            (s, _) => (s, Action::Wait),
        }
    }
}

impl Responder {
    pub open spec fn is_receiving(self) -> bool {
        self is AwaitingHello || self is AwaitingSolution
    }

    /// A responder on a fresh connection.
    pub fn new() -> (r: Responder)
        ensures
            r == Responder::AwaitingHello,
    {
        Responder::AwaitingHello
    }

    /// Takes one event: `Hello` is answered with a fresh puzzle, a solution
    /// is checked, other messages are passed over, and a bad frame or the
    /// end of the stream is fatal.
    pub fn step(self, event: Event) -> (r: (Responder, Action))
        ensures
            !self.is_receiving() ==> r.0 == self && r.1 is Wait,
            self.is_receiving() && !(event is Frame) ==> r.0 == Responder::Failed && on_stream_end(
                event,
                r.1,
            ),
            self.is_receiving() && event is Frame ==> match parse(event->Frame_0@) {
                None => r.0 == Responder::Failed && r.1 == Action::Abort(
                    HandshakeError::Decode(DecodeError),
                ),
                Some(m) => responder_on_message(self, m, r.0, r.1),
            },
    {
        let receiving = match self {
            Responder::AwaitingHello => true,
            Responder::AwaitingSolution(_) => true,
            _ => false,
        };
        if !receiving {
            return (self, Action::Wait);
        }
        let bytes = match event {
            Event::Frame(bytes) => bytes,
            Event::Closed => {
                return (Responder::Failed, Action::Abort(HandshakeError::UnexpectedClose));
            },
            Event::TransportFault => {
                return (Responder::Failed, Action::Abort(HandshakeError::Transport));
            },
        };
        let message = match Message::decode(bytes.as_slice()) {
            Ok(m) => m,
            Err(e) => {
                return (Responder::Failed, Action::Abort(HandshakeError::Decode(e)));
            },
        };
        match (self, message) {
            (Responder::AwaitingHello, Message::Hello) => {
                let c = Challenge::random(RESPONDER_DIFFICULTY);
                let frame = Message::Challenge(c).encode();
                (Responder::AwaitingSolution(c), Action::Send(frame))
            },
            (Responder::AwaitingSolution(c), Message::Solution(sol)) => match sol.verify(&c) {
                Ok(VerificationStatus::Valid(_)) => (Responder::Verified, Action::PickWisdom),
                Ok(VerificationStatus::Invalid) => (
                    Responder::Failed,
                    Action::Abort(HandshakeError::ProtocolViolation),
                ),
                Err(e) => (Responder::Failed, Action::Abort(HandshakeError::Solution(e))),
            },
            (s, _) => (s, Action::Wait),
        }
    }

    /// Sends the picked text after a valid solution and ends the handshake.
    pub fn answer(self, wisdom: String) -> (r: (Responder, Action))
        ensures
            self is Verified ==> {
                &&& r.0 == Responder::Done
                &&& r.1 is Send
                &&& r.1->Send_0@ == encoding(MessageView::Wisdom(wisdom@))
            },
            !(self is Verified) ==> r.0 == self && r.1 is Wait,
    {
        match self {
            Responder::Verified => {
                let frame = Message::Wisdom(wisdom).encode();
                (Responder::Done, Action::Send(frame))
            },
            _ => (self, Action::Wait),
        }
    }
}

} // verus!
