//! The outbound side of the chat session: parsing the configured channel
//! list into names and join keys, and the writer that fans one notification
//! line out to every joined channel of a live session.

use vstd::prelude::*;

use crate::text::{find_char, first_index_of, str_eq};

verus! {

// ---------------------------------------------------------------------------
// Channel-list parsing
// ---------------------------------------------------------------------------
/// The channel name of a configured entry: everything before the first
/// colon.
pub open spec fn chan_name(s: Seq<char>) -> Seq<char> {
    s.take(first_index_of(s, ':'))
}

/// The join key of a configured entry: the part between the first colon and
/// the next one (or the end), or nothing when the entry has no colon.
pub open spec fn chan_key(s: Seq<char>) -> Option<Seq<char>> {
    if first_index_of(s, ':') == s.len() {
        None
    } else {
        let rest = s.skip(first_index_of(s, ':') + 1);
        Some(rest.take(first_index_of(rest, ':')))
    }
}

/// The name-to-key pairs of a channel list, in order, one per entry that
/// carries a key.
pub open spec fn key_pairs(chs: Seq<String>) -> Seq<(Seq<char>, Seq<char>)>
    decreases chs.len(),
{
    if chs.len() == 0 {
        Seq::empty()
    } else {
        (if chan_key(chs[0]@) is Some {
            seq![(chan_name(chs[0]@), chan_key(chs[0]@)->Some_0)]
        } else {
            Seq::empty()
        }) + key_pairs(chs.drop_first())
    }
}

/// The views of a vector of name-to-key pairs.
pub open spec fn pairs_view(ps: Seq<(String, String)>) -> Seq<(Seq<char>, Seq<char>)> {
    ps.map_values(|p: (String, String)| (p.0@, p.1@))
}

proof fn lemma_key_pairs_take_step(chs: Seq<String>, i: int)
    requires
        0 <= i < chs.len(),
    ensures
        key_pairs(chs.take(i + 1)) == key_pairs(chs.take(i)) + (if chan_key(chs[i]@) is Some {
            seq![(chan_name(chs[i]@), chan_key(chs[i]@)->Some_0)]
        } else {
            Seq::<(Seq<char>, Seq<char>)>::empty()
        }),
    decreases i,
{
    if i == 0 {
        assert(chs.take(1).drop_first() =~= Seq::<String>::empty());
        assert(chs.take(0) =~= Seq::<String>::empty());
        assert(key_pairs(chs.take(1)) =~= key_pairs(chs.take(0)) + (if chan_key(chs[0]@)
            is Some {
            seq![(chan_name(chs[0]@), chan_key(chs[0]@)->Some_0)]
        } else {
            Seq::<(Seq<char>, Seq<char>)>::empty()
        }));
    } else {
        lemma_key_pairs_take_step(chs.drop_first(), i - 1);
        assert(chs.take(i + 1).drop_first() =~= chs.drop_first().take(i));
        assert(chs.take(i).drop_first() =~= chs.drop_first().take(i - 1));
    }
}

/// Splits a configured channel list into the channel names (all entries,
/// order kept) and the name-to-key pairs of the entries that carry a
/// `name:key` join key.
pub fn split_channel_keys(channels: &Vec<String>) -> (r: (Vec<String>, Vec<(String, String)>))
    ensures
        r.0@.len() == channels@.len(),
        forall|i: int| 0 <= i < channels@.len() ==> r.0@[i]@ == chan_name(channels@[i]@),
        pairs_view(r.1@) == key_pairs(channels@),
{
    let mut names: Vec<String> = Vec::new();
    let mut keys: Vec<(String, String)> = Vec::new();
    let n = channels.len();
    let mut idx: usize = 0;
    proof {
        assert(channels@.take(0) =~= Seq::<String>::empty());
        assert(pairs_view(keys@) =~= key_pairs(channels@.take(0)));
    }
    while idx < n
        invariant
            idx <= n,
            n == channels@.len(),
            names@.len() == idx,
            forall|i: int| 0 <= i < idx ==> names@[i]@ == chan_name(channels@[i]@),
            pairs_view(keys@) == key_pairs(channels@.take(idx as int)),
        decreases n - idx,
    {
        let s = channels[idx].as_str();
        let len = s.unicode_len();
        let cut = find_char(s, ':');
        let name = s.substring_char(0, cut).to_owned();
        proof {
            let ghost old_keys = keys@;
            lemma_key_pairs_take_step(channels@, idx as int);
        }
        if cut < len {
            let rest = s.substring_char(cut + 1, len);
            proof {
                assert(rest@ =~= s@.skip(cut + 1));
            }
            let cut2 = find_char(rest, ':');
            let key = rest.substring_char(0, cut2).to_owned();
            let ghost before = keys@;
            keys.push((name.clone(), key));
            proof {
                assert(chan_key(channels@[idx as int]@) matches Some(kv) && kv == keys@[
                    keys@.len() - 1].1@);
                assert(pairs_view(keys@) =~= pairs_view(before) + seq![
                    (chan_name(channels@[idx as int]@), chan_key(channels@[idx as int]@)->Some_0),
                ]);
            }
        } else {
            proof {
                assert(chan_key(channels@[idx as int]@) is None);
                assert(pairs_view(keys@) =~= key_pairs(channels@.take(idx as int))
                    + Seq::<(Seq<char>, Seq<char>)>::empty());
            }
        }
        names.push(name);
        idx += 1;
    }
    proof {
        assert(channels@.take(n as int) =~= channels@);
    }
    (names, keys)
}

// ---------------------------------------------------------------------------
// The outbound writer
// ---------------------------------------------------------------------------
/// The minimal outbound capability the request path needs: accept one
/// message, possibly failing with the failed channel and the cause.
pub trait IrcWriter {
    fn write(&mut self, message: &str) -> (r: Result<(), String>);
}

#[verifier::external_type_specification]
#[verifier::external_body]
pub struct ExIrcClient(irc::client::Client);

#[verifier::external_type_specification]
#[verifier::external_body]
pub struct ExIrcError(irc::error::Error);

/// Relies on the irc crate's `Client::list_channels`: the channels the
/// session has joined, or `None` when channel tracking is compiled out.
#[verifier::external_body]
fn client_channels(client: &irc::client::Client) -> (r: Option<Vec<String>>) {
    client.list_channels()
}

/// Relies on the irc crate's `Client::send_privmsg`: queues `message` as a
/// `PRIVMSG` to `target` on the session's outgoing queue.
#[verifier::external_body]
fn client_send(client: &irc::client::Client, target: &str, message: &str) -> (r: Result<
    (),
    irc::error::Error,
>) {
    client.send_privmsg(target, message)
}

/// Relies on the `Display` impl of the irc crate's error type: a
/// human-readable account of a failed send.
#[verifier::external_body]
fn describe_irc_error(e: &irc::error::Error) -> (r: String) {
    format!("{}", e)
}

/// How a failed send is reported: the channel it failed on, then the cause.
pub open spec fn send_failure_text(chan: Seq<char>, cause: Seq<char>) -> Seq<char> {
    "failed to send IRC message to channel "@ + chan + ": "@ + cause
}

/// The writer over a live, authenticated session handle.
pub struct RealIrcWriter {
    client: irc::client::Client,
}

impl RealIrcWriter {
    /// Whether this writer wraps the given session handle.
    pub closed spec fn wraps(&self, client: irc::client::Client) -> bool {
        self.client == client
    }

    /// Wraps a connected session handle.
    pub fn new(client: irc::client::Client) -> (r: Self)
        ensures
            r.wraps(client),
    {
        RealIrcWriter { client }
    }

    /// Sends one message to every channel the session has joined, stopping
    /// at the first failure, which is reported with its channel and cause.
    pub fn send_to_all(&self, message: &str) -> (r: Result<(), String>)
        ensures
            r matches Err(t) ==> exists|chan: Seq<char>, cause: Seq<char>|
                t@ == send_failure_text(chan, cause),
    {
        let channels = match client_channels(&self.client) {
            Some(cs) => cs,
            None => {
                return Ok(());
            },
        };
        let n = channels.len();
        let mut i: usize = 0;
        while i < n
            invariant
                i <= n,
                n == channels@.len(),
            decreases n - i,
        {
            match client_send(&self.client, channels[i].as_str(), message) {
                Ok(_) => {},
                Err(e) => {
                    let cause = describe_irc_error(&e);
                    let mut t = String::from_str("failed to send IRC message to channel ");
                    t.append(channels[i].as_str());
                    t.append(": ");
                    t.append(cause.as_str());
                    proof {
                        assert(t@ =~= send_failure_text(channels@[i as int]@, cause@));
                    }
                    return Err(t);
                },
            }
            i += 1;
        }
        Ok(())
    }
}

impl IrcWriter for RealIrcWriter {
    fn write(&mut self, message: &str) -> (r: Result<(), String>) {
        self.send_to_all(message)
    }
}

} // verus!
