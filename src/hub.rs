//! The debug hub: a fan-out of every envelope that crosses the relay to the
//! connected debug observers. A subscriber whose receiving side has gone away
//! is dropped on the first send that fails.
use tokio::sync::mpsc::{UnboundedReceiver, UnboundedSender};
use vstd::prelude::*;

verus! {

#[verifier::external_type_specification]
#[verifier::external_body]
#[verifier::reject_recursive_types(T)]
pub struct ExUnboundedSender<T>(UnboundedSender<T>);

#[verifier::external_type_specification]
#[verifier::external_body]
#[verifier::reject_recursive_types(T)]
pub struct ExUnboundedReceiver<T>(UnboundedReceiver<T>);

/// The channel a send handle feeds.
pub uninterp spec fn sender_channel(tx: UnboundedSender<String>) -> nat;

/// The channel a receive handle drains.
pub uninterp spec fn receiver_channel(rx: UnboundedReceiver<String>) -> nat;

/// The messages a send handle has had accepted, in order; its receiver gets
/// them in that order.
pub uninterp spec fn accepted(tx: UnboundedSender<String>) -> Seq<Seq<char>>;

/// Relies on `tokio::sync::mpsc::unbounded_channel`: a new channel, whose two
/// handles are returned together; nothing has been sent through it yet.
#[verifier::external_body]
fn open_channel() -> (r: (UnboundedSender<String>, UnboundedReceiver<String>))
    ensures
        sender_channel(r.0) == receiver_channel(r.1),
        accepted(r.0) == Seq::<Seq<char>>::empty(),
{
    tokio::sync::mpsc::unbounded_channel()
}

/// Relies on `tokio::sync::mpsc::UnboundedSender::send`: it never waits; on
/// success the message is queued on the channel after the earlier ones, and
/// it fails, queuing nothing, only when the receiving side has been dropped.
#[verifier::external_body]
fn try_deliver(tx: &mut UnboundedSender<String>, message: String) -> (r: bool)
    ensures
        sender_channel(*final(tx)) == sender_channel(*old(tx)),
        r ==> accepted(*final(tx)) == accepted(*old(tx)).push(message@),
        !r ==> accepted(*final(tx)) == accepted(*old(tx)),
{
    tx.send(message).is_ok()
}

/// A subscriber as the contracts see it: its channel, and the messages it
/// has been sent.
pub open spec fn subscriber_view(tx: UnboundedSender<String>) -> (nat, Seq<Seq<char>>) {
    (sender_channel(tx), accepted(tx))
}

/// The views of a list of subscribers.
pub open spec fn subscribers_of(peers: Seq<UnboundedSender<String>>) -> Seq<(nat, Seq<Seq<char>>)> {
    Seq::new(peers.len(), |i: int| subscriber_view(peers[i]))
}

/// The subscribers after `m` has been sent to each of them.
pub open spec fn offered(subs: Seq<(nat, Seq<Seq<char>>)>, m: Seq<char>) -> Seq<(nat, Seq<Seq<char>>)> {
    Seq::new(subs.len(), |i: int| (subs[i].0, subs[i].1.push(m)))
}

/// The items of `items` whose outcome in `ok` is `true`, in order.
pub open spec fn kept<T>(items: Seq<T>, ok: Seq<bool>) -> Seq<T>
    decreases items.len(),
{
    if items.len() == 0 || ok.len() == 0 {
        Seq::empty()
    } else {
        let rest = kept(items.drop_last(), ok.drop_last());
        if ok.last() {
            rest.push(items.last())
        } else {
            rest
        }
    }
}

/// The number of `true` outcomes.
pub open spec fn count_true(ok: Seq<bool>) -> nat
    decreases ok.len(),
{
    if ok.len() == 0 {
        0
    } else {
        count_true(ok.drop_last()) + if ok.last() {
            1nat
        } else {
            0nat
        }
    }
}

/// The subscribers of the debug mirror.
pub struct DebugHub {
    peers: Vec<UnboundedSender<String>>,
}

impl DebugHub {
    /// The subscribers' send handles, in order of registration.
    pub closed spec fn peers(&self) -> Seq<UnboundedSender<String>> {
        self.peers@
    }

    /// The subscribers' channels and what each has been sent.
    pub open spec fn subscribers(&self) -> Seq<(nat, Seq<Seq<char>>)> {
        subscribers_of(self.peers())
    }

    /// A hub with no subscribers.
    pub fn new() -> (r: DebugHub)
        ensures
            r.peers().len() == 0,
    {
        DebugHub { peers: Vec::new() }
    }

    /// The number of current subscribers.
    pub fn subscriber_count(&self) -> (r: usize)
        ensures
            r == self.peers().len(),
    {
        self.peers.len()
    }

    /// Adds a subscriber and hands back its receiving side: the new last
    /// subscriber feeds exactly that receiver, and has been sent nothing.
    pub fn register(&mut self) -> (r: UnboundedReceiver<String>)
        ensures
            final(self).peers().len() == old(self).peers().len() + 1,
            final(self).peers().take(old(self).peers().len() as int) == old(self).peers(),
            final(self).subscribers() == old(self).subscribers().push(
                (receiver_channel(r), Seq::<Seq<char>>::empty()),
            ),
    {
        let (tx, rx) = open_channel();
        self.peers.push(tx);
        assert(self.peers@.take(old(self).peers@.len() as int) =~= old(self).peers@);
        assert(subscribers_of(self.peers@) =~= subscribers_of(old(self).peers@).push(
            (receiver_channel(rx), Seq::<Seq<char>>::empty()),
        ));
        rx
    }

    /// Keeps the subscribers whose delivery succeeded: `delivered` holds one
    /// outcome per subscriber, in order.
    pub fn prune(&mut self, delivered: &Vec<bool>)
        requires
            delivered@.len() == old(self).peers().len(),
        ensures
            final(self).peers() == kept(old(self).peers(), delivered@),
    {
        let ghost orig = self.peers@;
        let mut rest: Vec<UnboundedSender<String>> = Vec::new();
        std::mem::swap(&mut rest, &mut self.peers);
        let mut out: Vec<UnboundedSender<String>> = Vec::new();
        let n = rest.len();
        let mut i: usize = 0;
        assert(orig.take(0) =~= Seq::<UnboundedSender<String>>::empty());
        while i < n
            invariant
                n == orig.len() == delivered@.len(),
                i <= n,
                rest@ =~= orig.skip(i as int),
                out@ == kept(orig.take(i as int), delivered@.take(i as int)),
            decreases n - i,
        {
            let tx = rest.remove(0);
            assert(orig.take(i + 1).drop_last() =~= orig.take(i as int));
            assert(delivered@.take(i + 1).drop_last() =~= delivered@.take(i as int));
            if delivered[i] {
                out.push(tx);
            }
            i = i + 1;
            assert(rest@ =~= orig.skip(i as int));
        }
        assert(orig.take(n as int) =~= orig);
        assert(delivered@.take(n as int) =~= delivered@);
        self.peers = out;
    }

    /// Sends `message` to every subscriber without waiting on any of them,
    /// and drops those whose receiving side is gone: each remaining
    /// subscriber has been sent `message` after what it was sent before.
    pub fn broadcast(&mut self, message: &str)
        ensures
            exists|delivered: Seq<bool>|
                delivered.len() == old(self).peers().len() && final(self).subscribers() == kept(
                    offered(old(self).subscribers(), message@),
                    delivered,
                ),
    {
        let ghost orig = self.peers@;
        let mut delivered: Vec<bool> = Vec::new();
        let mut i: usize = 0;
        while i < self.peers.len()
            invariant
                self.peers@.len() == orig.len(),
                i <= orig.len(),
                delivered@.len() == i,
                forall|k: int| 0 <= k < orig.len() ==> sender_channel(self.peers@[k]) == sender_channel(orig[k]),
                forall|k: int| 0 <= k < i && delivered@[k] ==> accepted(self.peers@[k]) == accepted(orig[k]).push(message@),
                forall|k: int| i <= k < orig.len() ==> self.peers@[k] == orig[k],
            decreases orig.len() - i,
        {
            let ok = try_deliver(&mut self.peers[i], message.to_owned());
            delivered.push(ok);
            i = i + 1;
        }
        let ghost mid = self.peers@;
        self.prune(&delivered);
        proof {
            lemma_kept_views(mid, offered(subscribers_of(orig), message@), delivered@);
            assert(self.subscribers() == kept(offered(old(self).subscribers(), message@), delivered@));
        }
    }
}

proof fn lemma_kept_views(
    peers: Seq<UnboundedSender<String>>,
    views: Seq<(nat, Seq<Seq<char>>)>,
    ok: Seq<bool>,
)
    requires
        peers.len() == views.len() == ok.len(),
        forall|k: int| 0 <= k < ok.len() && ok[k] ==> subscriber_view(peers[k]) == views[k],
    ensures
        subscribers_of(kept(peers, ok)) == kept(views, ok),
    decreases peers.len(),
{
    if peers.len() > 0 {
        lemma_kept_views(peers.drop_last(), views.drop_last(), ok.drop_last());
        let rest = kept(peers.drop_last(), ok.drop_last());
        if ok.last() {
            assert(subscribers_of(rest.push(peers.last())) =~= subscribers_of(rest).push(
                subscriber_view(peers.last()),
            ));
        }
    } else {
        assert(subscribers_of(kept(peers, ok)) =~= kept(views, ok));
    }
}

proof fn lemma_kept_len<T>(items: Seq<T>, ok: Seq<bool>)
    requires
        items.len() == ok.len(),
    ensures
        kept(items, ok).len() == count_true(ok),
        count_true(ok) <= ok.len(),
    decreases items.len(),
{
    if items.len() > 0 {
        lemma_kept_len(items.drop_last(), ok.drop_last());
    }
}

proof fn lemma_kept_all<T>(items: Seq<T>, ok: Seq<bool>)
    requires
        items.len() == ok.len(),
        forall|i: int| 0 <= i < ok.len() ==> ok[i],
    ensures
        kept(items, ok) == items,
    decreases items.len(),
{
    if items.len() > 0 {
        lemma_kept_all(items.drop_last(), ok.drop_last());
        assert(items.drop_last().push(items.last()) =~= items);
    }
}

/// After a broadcast of `m` with delivery outcomes `delivered`, the
/// subscribers left are exactly those whose delivery succeeded, each with
/// `m` after everything it was sent before; when every delivery succeeded,
/// every subscriber remains and has received `m`.
pub proof fn broadcast_prunes_only_failures(
    subs: Seq<(nat, Seq<Seq<char>>)>,
    m: Seq<char>,
    delivered: Seq<bool>,
)
    requires
        delivered.len() == subs.len(),
    ensures
        kept(offered(subs, m), delivered).len() == count_true(delivered),
        count_true(delivered) <= subs.len(),
        (forall|i: int| 0 <= i < delivered.len() ==> delivered[i]) ==> kept(offered(subs, m), delivered)
            == offered(subs, m),
{
    lemma_kept_len(offered(subs, m), delivered);
    if forall|i: int| 0 <= i < delivered.len() ==> delivered[i] {
        lemma_kept_all(offered(subs, m), delivered);
    }
}

} // verus!
