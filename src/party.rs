use crate::hand::{outcome, Hand};
use crate::message::{
    accepts, commitment_input, commitment_of, lemma_commitment_inputs_differ, sha256_of, Commit,
    Message, Salt,
};
use std::cmp::Ordering;
use vstd::prelude::*;

verus! {

/// How a party plays the reveal round.
#[derive(Clone, Copy, PartialEq, Eq, Structural, Debug)]
pub enum Strategy {
    /// Sends its own reveal as soon as the peer's commitment is in, then waits
    /// for the peer's reveal.
    Honest,
    /// Dishonest: waits for the peer's reveal, then reveals the hand that beats
    /// it under the salt of its original commitment.
    Cheat,
}

/// How a match ended for one party, from its own view.
#[derive(Clone, Copy, PartialEq, Eq, Structural, Debug)]
pub enum Outcome {
    Win,
    Lose,
    Draw,
    /// The peer's reveal does not match its commitment.
    CheaterDetected,
    /// The peer's reveal checked out, but a cheating party scores nothing.
    Unscored,
    /// The channel closed while a message was still expected.
    PeerDisconnected,
    /// A message of the wrong kind came, or an event came out of turn.
    ProtocolViolation,
}

/// What happened on the channel since the last action.
#[derive(Clone, Copy, PartialEq, Eq, Debug)]
pub enum Event {
    /// The match begins.
    Start,
    /// The message of the last `Send` went out.
    Sent,
    /// The message of the last `Send` could not go out: the peer is gone.
    SendFailed,
    /// A message arrived.
    Received(Message),
    /// The receiving side reported the channel closed.
    Closed,
}

/// What the party asks its runner to do next.
#[derive(Clone, Copy, PartialEq, Eq, Debug)]
pub enum Action {
    /// Send this message to the peer.
    Send(Message),
    /// Wait for the next message from the peer.
    Receive,
    /// Close the own sending side, then wait for the peer's side to close.
    Close,
    /// The match is over for this party.
    Finish(Outcome),
}

/// Where a party stands in the protocol, with what it has learnt of the peer.
#[derive(Clone, Copy, PartialEq, Eq, Debug)]
pub enum Stage {
    Init,
    /// Own commitment handed out for sending.
    CommitSent,
    /// Waiting for the peer's commitment.
    AwaitCommit,
    /// Own reveal handed out for sending; holds the peer's commitment.
    RevealSent(Commit),
    /// Waiting for the peer's reveal after sending the own one.
    AwaitReveal(Commit),
    /// Cheating: waiting for the peer's reveal before sending the own one.
    AwaitRevealEarly(Commit),
    /// Cheating: own reveal handed out last; holds the peer's commitment, hand and salt.
    LastRevealSent(Commit, Hand, Salt),
    /// Result known; waiting for the channel to close.
    Closing(Outcome),
    Done(Outcome),
}

/// One participant of a match.
#[derive(Clone, Copy, Debug)]
pub struct Party {
    pub strategy: Strategy,
    /// The hand this party reveals (a cheating party replaces it).
    pub hand: Hand,
    pub salt: Salt,
    /// The commitment sent to the peer.
    pub commit: Commit,
    pub stage: Stage,
}

/// The result that a party with `strategy`, throwing `own`, draws from the
/// peer's commitment and reveal.
pub open spec fn resolution(
    strategy: Strategy,
    own: Hand,
    peer_hand: Hand,
    peer_salt: Seq<u8>,
    peer_commit: Seq<u8>,
) -> Outcome {
    if !accepts(peer_hand, peer_salt, peer_commit) {
        Outcome::CheaterDetected
    } else if strategy == Strategy::Cheat {
        Outcome::Unscored
    } else {
        match outcome(own, peer_hand) {
            Ordering::Greater => Outcome::Win,
            Ordering::Equal => Outcome::Draw,
            Ordering::Less => Outcome::Lose,
        }
    }
}

/// `p` moved to stage `s`, all else kept.
pub open spec fn at_stage(p: Party, s: Stage) -> Party {
    Party { strategy: p.strategy, hand: p.hand, salt: p.salt, commit: p.commit, stage: s }
}

/// The party's hand once the peer has revealed `peer_hand` early.
pub open spec fn final_hand(p: Party, peer_hand: Hand) -> Hand {
    if p.strategy == Strategy::Cheat {
        peer_hand.beater()
    } else {
        p.hand
    }
}

/// The protocol: the next state of a party, and its next action, on an event.
pub open spec fn transition(p: Party, e: Event) -> (Party, Action) {
    match (p.stage, e) {
        (Stage::Init, Event::Start) => (
            at_stage(p, Stage::CommitSent),
            Action::Send(Message::Commit(p.commit)),
        ),
        (Stage::CommitSent, Event::Sent) => (at_stage(p, Stage::AwaitCommit), Action::Receive),
        (Stage::AwaitCommit, Event::Received(Message::Commit(c))) => if p.strategy
            == Strategy::Cheat {
            (at_stage(p, Stage::AwaitRevealEarly(c)), Action::Receive)
        } else {
            (at_stage(p, Stage::RevealSent(c)), Action::Send(Message::Hand(p.hand, p.salt)))
        },
        (Stage::RevealSent(c), Event::Sent) => (at_stage(p, Stage::AwaitReveal(c)), Action::Receive),
        (Stage::AwaitReveal(c), Event::Received(Message::Hand(h, s))) => {
            let o = resolution(p.strategy, p.hand, h, s@, c@);
            (at_stage(p, Stage::Closing(o)), Action::Close)
        },
        (Stage::AwaitRevealEarly(c), Event::Received(Message::Hand(h, s))) => {
            let own = final_hand(p, h);
            (
                Party {
                    strategy: p.strategy,
                    hand: own,
                    salt: p.salt,
                    commit: p.commit,
                    stage: Stage::LastRevealSent(c, h, s),
                },
                Action::Send(Message::Hand(own, p.salt)),
            )
        },
        (Stage::LastRevealSent(c, h, s), Event::Sent) => {
            let o = resolution(p.strategy, p.hand, h, s@, c@);
            (at_stage(p, Stage::Closing(o)), Action::Close)
        },
        (Stage::Closing(o), Event::Closed) => (at_stage(p, Stage::Done(o)), Action::Finish(o)),
        (Stage::Done(o), _) => (p, Action::Finish(o)),
        (_, Event::Closed) => (
            at_stage(p, Stage::Done(Outcome::PeerDisconnected)),
            Action::Finish(Outcome::PeerDisconnected),
        ),
        (_, Event::SendFailed) => (
            at_stage(p, Stage::Done(Outcome::PeerDisconnected)),
            Action::Finish(Outcome::PeerDisconnected),
        ),
        _ => (
            at_stage(p, Stage::Done(Outcome::ProtocolViolation)),
            Action::Finish(Outcome::ProtocolViolation),
        ),
    }
}

impl Party {
    /// A party that will throw `hand`, committed under `salt`, before the match starts.
    pub fn with_salt(strategy: Strategy, hand: Hand, salt: Salt) -> (r: Party)
        ensures
            r.strategy == strategy,
            r.hand == hand,
            r.salt == salt,
            r.commit@ == commitment_of(hand, salt@),
            r.stage == Stage::Init,
    {
        let commit = Message::commit_with_salt(hand, salt);
        Party { strategy, hand, salt, commit, stage: Stage::Init }
    }

    /// A party that will throw `hand`, committed under a fresh random salt.
    pub fn new(strategy: Strategy, hand: Hand) -> (r: Party)
        ensures
            r.strategy == strategy,
            r.hand == hand,
            r.commit@ == commitment_of(hand, r.salt@),
            r.stage == Stage::Init,
    {
        let (commit, salt) = Message::commit(hand);
        Party { strategy, hand, salt, commit, stage: Stage::Init }
    }

    /// The result this party draws from the peer's commitment and reveal.
    fn resolve(&self, peer_hand: Hand, peer_salt: Salt, peer_commit: Commit) -> (r: Outcome)
        ensures
            r == resolution(self.strategy, self.hand, peer_hand, peer_salt@, peer_commit@),
    {
        if !Message::verify(peer_hand, peer_salt, peer_commit) {
            Outcome::CheaterDetected
        } else {
            match self.strategy {
                Strategy::Cheat => Outcome::Unscored,
                _ => match self.hand.compare(&peer_hand) {
                    Ordering::Greater => Outcome::Win,
                    Ordering::Equal => Outcome::Draw,
                    Ordering::Less => Outcome::Lose,
                },
            }
        }
    }

    /// Advances the party on `event` and returns what it asks to be done next.
    pub fn step(&mut self, event: Event) -> (r: Action)
        ensures
            (*final(self), r) == transition(*old(self), event),
    {
        let (stage, action) = match (self.stage, event) {
            (Stage::Init, Event::Start) => (
                Stage::CommitSent,
                Action::Send(Message::Commit(self.commit)),
            ),
            (Stage::CommitSent, Event::Sent) => (Stage::AwaitCommit, Action::Receive),
            (Stage::AwaitCommit, Event::Received(Message::Commit(c))) => match self.strategy {
                Strategy::Cheat => (Stage::AwaitRevealEarly(c), Action::Receive),
                Strategy::Honest => (
                    Stage::RevealSent(c),
                    Action::Send(Message::Hand(self.hand, self.salt)),
                ),
            },
            (Stage::RevealSent(c), Event::Sent) => (Stage::AwaitReveal(c), Action::Receive),
            (Stage::AwaitReveal(c), Event::Received(Message::Hand(h, s))) => {
                (Stage::Closing(self.resolve(h, s, c)), Action::Close)
            },
            (Stage::AwaitRevealEarly(c), Event::Received(Message::Hand(h, s))) => {
                if let Strategy::Cheat = self.strategy {
                    self.hand = h.opposite();
                }
                (Stage::LastRevealSent(c, h, s), Action::Send(Message::Hand(self.hand, self.salt)))
            },
            (Stage::LastRevealSent(c, h, s), Event::Sent) => {
                (Stage::Closing(self.resolve(h, s, c)), Action::Close)
            },
            (Stage::Closing(o), Event::Closed) => (Stage::Done(o), Action::Finish(o)),
            (Stage::Done(o), _) => (Stage::Done(o), Action::Finish(o)),
            (_, Event::Closed) => (
                Stage::Done(Outcome::PeerDisconnected),
                Action::Finish(Outcome::PeerDisconnected),
            ),
            (_, Event::SendFailed) => (
                Stage::Done(Outcome::PeerDisconnected),
                Action::Finish(Outcome::PeerDisconnected),
            ),
            _ => (
                Stage::Done(Outcome::ProtocolViolation),
                Action::Finish(Outcome::ProtocolViolation),
            ),
        };
        self.stage = stage;
        action
    }
}

/// A party that is still waiting for the peer's commitment or reveal, when the
/// channel closes, finishes with `PeerDisconnected` and waits no longer.
pub proof fn lemma_disconnect_while_waiting(p: Party)
    requires
        p.stage matches Stage::AwaitCommit || p.stage matches Stage::AwaitReveal(_)
            || p.stage matches Stage::AwaitRevealEarly(_),
    ensures
        transition(p, Event::Closed).1 == Action::Finish(Outcome::PeerDisconnected),
        transition(p, Event::Closed).0.stage == Stage::Done(Outcome::PeerDisconnected),
{
}

/// An honest party answers the peer's commitment with its own reveal at once,
/// before it waits for anything from the peer, so it never waits on a peer that
/// holds its reveal back.
pub proof fn lemma_honest_reveals_on_commitment(p: Party, c: Commit)
    requires
        p.strategy == Strategy::Honest,
        p.stage == Stage::AwaitCommit,
    ensures
        transition(p, Event::Received(Message::Commit(c))).1 == Action::Send(
            Message::Hand(p.hand, p.salt),
        ),
        transition(p, Event::Received(Message::Commit(c))).0 == at_stage(p, Stage::RevealSent(c)),
        transition(at_stage(p, Stage::RevealSent(c)), Event::Sent).1 == Action::Receive,
{
}

/// A party that has sent its reveal and then receives the peer's reveal, which
/// does not match the commitment the peer sent, reports `CheaterDetected` and
/// no win, loss or draw.
pub proof fn lemma_mismatched_reveal_is_detected(p: Party, c: Commit, h: Hand, s: Salt)
    requires
        p.stage == Stage::AwaitReveal(c),
        !accepts(h, s@, c@),
    ensures
        transition(p, Event::Received(Message::Hand(h, s))).0.stage == Stage::Closing(
            Outcome::CheaterDetected,
        ),
        transition(p, Event::Received(Message::Hand(h, s))).1 == Action::Close,
        transition(transition(p, Event::Received(Message::Hand(h, s))).0, Event::Closed).1
            == Action::Finish(Outcome::CheaterDetected),
{
}

/// An honest party whose peer reveals the hand and salt it committed to scores
/// the match by the cyclic rule: a win, a draw or a loss as `outcome` says.
pub proof fn lemma_honest_reveal_is_scored(own: Hand, peer_hand: Hand, peer_salt: Salt, strategy: Strategy)
    requires
        strategy != Strategy::Cheat,
    ensures
        resolution(strategy, own, peer_hand, peer_salt@, commitment_of(peer_hand, peer_salt@))
            == match outcome(own, peer_hand) {
            Ordering::Greater => Outcome::Win,
            Ordering::Equal => Outcome::Draw,
            Ordering::Less => Outcome::Lose,
        },
{
}

/// A cheating party that learns the peer's hand early reveals the hand that
/// beats it under its old salt. Where that is not the hand it committed to, the
/// honest peer accepts the reveal only if SHA-256 gives two different byte
/// strings one digest.
pub proof fn lemma_swapped_reveal_needs_collision(p: Party, c: Commit, h: Hand, s: Salt)
    requires
        p.strategy == Strategy::Cheat,
        p.stage == Stage::AwaitRevealEarly(c),
        p.commit@ == commitment_of(p.hand, p.salt@),
        h.beater() != p.hand,
    ensures
        transition(p, Event::Received(Message::Hand(h, s))).1 == Action::Send(
            Message::Hand(h.beater(), p.salt),
        ),
        accepts(h.beater(), p.salt@, p.commit@) ==> commitment_input(h.beater(), p.salt@)
            != commitment_input(p.hand, p.salt@) && sha256_of(commitment_input(h.beater(), p.salt@))
            == sha256_of(commitment_input(p.hand, p.salt@)),
{
    lemma_commitment_inputs_differ(h.beater(), p.hand, p.salt);
}

} // verus!
