//! The decision core of the chat session manager. The protocol loop itself
//! runs outside the library on a dedicated thread; it feeds the two signals
//! it watches for into this coordinator, which decides when the session
//! handle is handed to the request path (exactly once) and which channel
//! receives its one-time greeting.

use vstd::prelude::*;

verus! {

/// Tracks what the protocol loop has already done: whether the session
/// handle has been published to the request path, and which channels have
/// been greeted.
pub struct SessionCoordinator {
    published: bool,
    greeted: Vec<String>,
}

/// Whether a protocol argument names a channel.
pub open spec fn starts_hash(s: Seq<char>) -> bool {
    s.len() > 0 && s[0] == '#'
}

/// The position of the first channel-like argument, or the argument count
/// when there is none.
pub open spec fn first_hash_at(args: Seq<String>) -> int
    decreases args.len(),
{
    if args.len() == 0 {
        0
    } else if starts_hash(args[0]@) {
        0
    } else {
        1 + first_hash_at(args.drop_first())
    }
}

proof fn lemma_first_hash_at(args: Seq<String>, k: int)
    requires
        0 <= k <= args.len(),
        forall|j: int| 0 <= j < k ==> !starts_hash(args[j]@),
        k < args.len() ==> starts_hash(args[k]@),
    ensures
        first_hash_at(args) == k,
    decreases args.len(),
{
    if args.len() > 0 && !starts_hash(args[0]@) {
        lemma_first_hash_at(args.drop_first(), k - 1);
    }
}

/// How one welcome signal changes the coordinator: afterwards the handle
/// counts as published, nothing else changes, and publication is ordered
/// exactly when the handle was not yet published.
pub open spec fn welcome_step(
    pre: SessionCoordinator,
    post: SessionCoordinator,
    publish: bool,
) -> bool {
    &&& post.has_published()
    &&& post.greeted_channels() == pre.greeted_channels()
    &&& publish == !pre.has_published()
}

impl SessionCoordinator {
    /// Whether the session handle has been handed to the request path.
    pub closed spec fn has_published(&self) -> bool {
        self.published
    }

    /// The channels already greeted, in greeting order.
    pub closed spec fn greeted_channels(&self) -> Seq<Seq<char>> {
        self.greeted@.map_values(|s: String| s@)
    }

    /// A fresh coordinator: nothing published, nothing greeted.
    pub fn new() -> (r: Self)
        ensures
            !r.has_published(),
            r.greeted_channels().len() == 0,
    {
        SessionCoordinator { published: false, greeted: Vec::new() }
    }

    /// Answers a welcome (registration accepted) signal. The first welcome
    /// orders the handle published; any later one is absorbed without
    /// re-publishing.
    pub fn on_welcome(&mut self) -> (publish: bool)
        ensures
            welcome_step(*old(self), *final(self), publish),
    {
        let publish = !self.published;
        self.published = true;
        publish
    }

    /// Answers a channel-member-list signal. The first argument naming a
    /// channel is greeted, once per channel over the whole session; the
    /// publication state never changes.
    pub fn on_names(&mut self, args: &Vec<String>) -> (r: Option<String>)
        ensures
            final(self).has_published() == old(self).has_published(),
            match r {
                Some(c) => {
                    &&& first_hash_at(args@) < args@.len()
                    &&& c@ == args@[first_hash_at(args@)]@
                    &&& !old(self).greeted_channels().contains(c@)
                    &&& final(self).greeted_channels() == old(self).greeted_channels().push(c@)
                },
                None => {
                    &&& final(self).greeted_channels() == old(self).greeted_channels()
                    &&& (first_hash_at(args@) == args@.len() || old(
                        self,
                    ).greeted_channels().contains(args@[first_hash_at(args@)]@))
                },
            },
    {
        let n = args.len();
        let mut i: usize = 0;
        while i < n
            invariant
                i <= n,
                n == args@.len(),
                forall|j: int| 0 <= j < i ==> !starts_hash(args@[j]@),
                self.has_published() == old(self).has_published(),
                self.greeted_channels() == old(self).greeted_channels(),
            decreases n - i,
        {
            let arg = &args[i];
            let len = arg.as_str().unicode_len();
            if len > 0 && arg.as_str().get_char(0) == '#' {
                proof {
                    lemma_first_hash_at(args@, i as int);
                }
                let chan = arg.clone();
                if self.mark_greeted(&chan) {
                    return Some(chan);
                } else {
                    return None;
                }
            }
            i += 1;
        }
        proof {
            lemma_first_hash_at(args@, n as int);
        }
        None
    }

    /// Records a channel as greeted; answers whether it was new.
    fn mark_greeted(&mut self, chan: &String) -> (fresh: bool)
        ensures
            final(self).has_published() == old(self).has_published(),
            fresh == !old(self).greeted_channels().contains(chan@),
            fresh ==> final(self).greeted_channels() == old(self).greeted_channels().push(chan@),
            !fresh ==> final(self).greeted_channels() == old(self).greeted_channels(),
    {
        let n = self.greeted.len();
        let mut i: usize = 0;
        while i < n
            invariant
                i <= n,
                n == self.greeted@.len(),
                forall|j: int| 0 <= j < i ==> self.greeted@[j]@ != chan@,
            decreases n - i,
        {
            if crate::text::str_eq(self.greeted[i].as_str(), chan.as_str()) {
                proof {
                    assert(old(self).greeted_channels()[i as int] == chan@);
                }
                return false;
            }
            i += 1;
        }
        proof {
            assert forall|j: int| 0 <= j < old(self).greeted_channels().len() implies old(
                self,
            ).greeted_channels()[j] != chan@ by {
                assert(old(self).greeted_channels()[j] == old(self).greeted@[j]@);
            }
        }
        self.greeted.push(chan.clone());
        proof {
            assert(self.greeted_channels() =~= old(self).greeted_channels().push(chan@));
        }
        true
    }
}

/// The handoff fires at most once per process lifetime: across any two
/// successive welcome signals, at most one of them orders the handle
/// published.
pub proof fn lemma_handoff_at_most_once(
    s0: SessionCoordinator,
    s1: SessionCoordinator,
    s2: SessionCoordinator,
    first_publish: bool,
    second_publish: bool,
)
    requires
        welcome_step(s0, s1, first_publish),
        welcome_step(s1, s2, second_publish),
    ensures
        !(first_publish && second_publish),
{
}

/// The one-time greeting posted to a channel when its member list first
/// arrives.
pub open spec fn greeting_text() -> Seq<char> {
    "🦝 Hello! I am here to serve your Gitlab notifications!"@
}

/// The greeting line, matching `greeting_text`.
pub fn greeting_line() -> (r: &'static str)
    ensures
        r@ == greeting_text(),
{
    "🦝 Hello! I am here to serve your Gitlab notifications!"
}

} // verus!
