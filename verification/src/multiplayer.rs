//! The multiplayer screen: what the typed connection string means, the
//! lists of servers found on the network, and their order on screen.

use vstd::prelude::*;
use crate::reactivity::ReactableValue;
use crate::text::{
    chars_of, contains, owned, parse_unsigned, parsed_unsigned, push_signed_decimal, push_str, replace_all, replaced,
    signed_decimal, str_contains, trim, trimmed, unsigned_body, all_digits, lemma_digits_value_nonneg,
};

verus! {

/// The connection string typed into the connect box.
#[derive(Debug, Clone, PartialEq, Eq)]
pub struct ConnectionString(pub String);

impl ReactableValue for ConnectionString {
    open spec fn value_text(&self) -> Seq<char> {
        self.0@
    }

    open spec fn text_after_set(&self, text: Seq<char>) -> Seq<char> {
        text
    }

    fn as_value(&self) -> (r: String) {
        owned(self.0.as_str())
    }

    fn set_from_value(&mut self, new_value: &str) {
        self.0 = owned(new_value);
    }
}

/// What the menu remembers between runs: the last connection string used.
#[derive(Debug, Clone, PartialEq, Eq)]
pub struct MultiplayerMenuData {
    /// The last connection string the player connected with.
    pub last_connected_string: String,
}

impl Default for MultiplayerMenuData {
    fn default() -> (d: Self)
        ensures
            d.last_connected_string@ == Seq::<char>::empty(),
    {
        MultiplayerMenuData { last_connected_string: String::new() }
    }
}

// ---------------------------------------------------------------------------
// Connection strings
// ---------------------------------------------------------------------------

/// The port a server listens on when none is given.
pub const DEFAULT_PORT: u16 = 1337;

/// Where the typed connection string says to connect.
#[derive(Debug, PartialEq, Eq)]
pub enum ConnectTarget {
    /// The player's own machine on the default port.
    LocalDefault,
    /// A Steam user, by id.
    SteamId(u64),
    /// A network address, `ip:port`, still to be parsed as a socket
    /// address.
    Address(String),
}

/// The connection string with `localhost` spelled as an IP address and
/// surrounding whitespace removed.
pub open spec fn normalized_connection(text: Seq<char>) -> Seq<char> {
    trimmed(replaced(text, "localhost"@, "127.0.0.1"@))
}

/// The address a connection string names when it is no Steam id: `:1337`
/// is added when it names no port.
pub open spec fn address_of(s: Seq<char>) -> Seq<char> {
    if contains(s, seq![':']) {
        s
    } else {
        s + ":1337"@
    }
}

/// Whether `t` is what a connection string means: empty is the local
/// server on the default port; a number is a Steam id; anything else is an
/// address.
pub open spec fn means(t: ConnectTarget, text: Seq<char>) -> bool {
    let s = normalized_connection(text);
    match t {
        ConnectTarget::LocalDefault => s.len() == 0,
        ConnectTarget::SteamId(id) => s.len() > 0 && parsed_unsigned(s, u64::MAX as int) == Some(id as int),
        ConnectTarget::Address(a) => s.len() > 0 && parsed_unsigned(s, u64::MAX as int) is None && a@ == address_of(s),
    }
}

/// Reads the connection string the player typed.
pub fn connect_target(text: &str) -> (t: ConnectTarget)
    ensures
        means(t, text@),
{
    proof {
        reveal_strlit("localhost");
    }
    let replaced_text = replace_all(text, "localhost", "127.0.0.1");
    let s = trim(replaced_text.as_str());
    let cs = chars_of(s.as_str());
    if cs.len() == 0 {
        return ConnectTarget::LocalDefault;
    }
    proof {
        let body = unsigned_body(s@);
        if body.len() > 0 && all_digits(body) {
            lemma_digits_value_nonneg(body);
        }
    }
    match parse_unsigned(s.as_str(), u64::MAX) {
        Some(id) => ConnectTarget::SteamId(id),
        None => {
            proof {
                reveal_strlit(":");
                assert(":"@ =~= seq![':']);
            }
            let mut a = owned(s.as_str());
            if !str_contains(s.as_str(), ":") {
                push_str(&mut a, ":1337");
            }
            ConnectTarget::Address(a)
        },
    }
}

/// An empty or blank connection string connects to the local server, and a
/// plain number names a Steam user.
pub proof fn law_blank_is_local(text: Seq<char>)
    requires
        normalized_connection(text).len() == 0,
    ensures
        forall|t: ConnectTarget| #[trigger] means(t, text) ==> t == ConnectTarget::LocalDefault,
{
}

// ---------------------------------------------------------------------------
// Servers found on the network
// ---------------------------------------------------------------------------

/// A server found on the network, as the list shows it.
#[derive(Debug, Clone, PartialEq, Eq)]
pub struct ServerEntry {
    /// The server's name.
    pub server_name: String,
    /// How many players are on it.
    pub players: i32,
    /// How many players it takes.
    pub max_players: i32,
    /// Its IPv4 address, most significant byte first.
    pub ip: u32,
    /// The port to connect to.
    pub port: u16,
}

/// The servers found by one search of the network.
#[derive(Debug)]
pub enum ServerList {
    /// The search ended and found nothing.
    NoneFound,
    /// The servers found so far.
    Found(Vec<ServerEntry>),
}

/// The servers found after one more was found.
pub open spec fn with_found(entries: Option<Seq<ServerEntry>>, info: ServerEntry) -> Option<Seq<ServerEntry>> {
    Some(
        match entries {
            Some(v) => v.push(info),
            None => seq![info],
        },
    )
}

/// The servers found once the search ended.
pub open spec fn finished(entries: Option<Seq<ServerEntry>>) -> Option<Seq<ServerEntry>> {
    match entries {
        Some(v) => if v.len() == 0 { None } else { Some(v) },
        None => None,
    }
}

impl ServerList {
    /// The servers found so far; `None` once a search ended with none.
    pub open spec fn spec_entries(&self) -> Option<Seq<ServerEntry>> {
        match self {
            ServerList::NoneFound => None,
            ServerList::Found(v) => Some(v@),
        }
    }

    /// A search that has just begun.
    pub fn new() -> (l: Self)
        ensures
            l.spec_entries() == Some(Seq::<ServerEntry>::empty()),
    {
        ServerList::Found(Vec::new())
    }

    /// Records a server the search found.
    pub fn add(&mut self, info: ServerEntry)
        ensures
            final(self).spec_entries() == with_found(old(self).spec_entries(), info),
    {
        match self {
            ServerList::NoneFound => {
                let mut v: Vec<ServerEntry> = Vec::new();
                v.push(info);
                *self = ServerList::Found(v);
            },
            ServerList::Found(v) => {
                v.push(info);
            },
        }
    }

    /// Records that the search ended: a list that found nothing becomes
    /// [`ServerList::NoneFound`].
    pub fn done(&mut self)
        ensures
            final(self).spec_entries() == finished(old(self).spec_entries()),
    {
        let empty = match self {
            ServerList::Found(v) => v.len() == 0,
            ServerList::NoneFound => false,
        };
        if empty {
            *self = ServerList::NoneFound;
        }
    }

    /// The index of the first server not yet shown, when `shown` of them
    /// are on screen and more were found.
    pub fn first_unshown(&self, shown: usize) -> (r: Option<usize>)
        ensures
            r == (match self.spec_entries() {
                Some(v) => if shown < v.len() { Some(shown) } else { None::<usize> },
                None => None::<usize>,
            }),
    {
        match self {
            ServerList::NoneFound => None,
            ServerList::Found(v) => {
                if shown < v.len() {
                    Some(shown)
                } else {
                    None
                }
            },
        }
    }
}

/// Adding a found server puts it last and leaves the servers already found
/// at their places; after a search that ended with none, it is the only one.
pub proof fn law_add_appends(before: Option<Seq<ServerEntry>>, info: ServerEntry)
    ensures
        with_found(before, info) is Some,
        with_found(before, info)->0.last() == info,
        before is None ==> with_found(before, info)->0.len() == 1,
        before is Some ==> with_found(before, info)->0.len() == before->0.len() + 1,
        forall|j: int| before is Some && 0 <= j < before->0.len() ==> #[trigger] with_found(before, info)->0[j] == before->0[j],
{
}

/// A search that found a server keeps what it found when it ends; one
/// that found nothing ends with no list.
pub proof fn law_done_keeps_found_servers(before: Option<Seq<ServerEntry>>, info: ServerEntry)
    ensures
        finished(with_found(before, info)) == with_found(before, info),
        finished(Some(Seq::<ServerEntry>::empty())) is None,
{
}

/// The number of players a server reports, never below zero.
pub fn shown_players(players: i32) -> (n: u32)
    ensures
        n == (if players < 0 { 0 } else { players as int }),
{
    if players < 0 {
        0
    } else {
        players as u32
    }
}

/// The `players/max` text shown beside a server.
pub fn player_count_text(players: i32, max_players: i32) -> (t: String)
    ensures
        t@ == signed_decimal(players as int) + seq!['/'] + signed_decimal(max_players as int),
{
    let mut t = String::new();
    push_signed_decimal(&mut t, players as i64);
    proof {
        reveal_strlit("/");
    }
    push_str(&mut t, "/");
    push_signed_decimal(&mut t, max_players as i64);
    proof {
        assert(t@ =~= signed_decimal(players as int) + seq!['/'] + signed_decimal(max_players as int));
    }
    t
}

// ---------------------------------------------------------------------------
// Order of the list
// ---------------------------------------------------------------------------

/// Whether servers, each an entity and its player count, are listed with
/// the fullest first.
pub open spec fn sorted_by_players(s: Seq<(u64, u32)>) -> bool {
    forall|i: int, j: int| 0 <= i < j < s.len() ==> #[trigger] s[i].1 >= #[trigger] s[j].1
}

/// The servers with exactly `k` players, in the order given.
pub open spec fn with_players(s: Seq<(u64, u32)>, k: u32) -> Seq<(u64, u32)>
    decreases s.len(),
{
    if s.len() == 0 {
        Seq::empty()
    } else {
        let rest = with_players(s.drop_last(), k);
        if s.last().1 == k {
            rest.push(s.last())
        } else {
            rest
        }
    }
}

proof fn lemma_with_players_concat(a: Seq<(u64, u32)>, b: Seq<(u64, u32)>, k: u32)
    ensures
        with_players(a + b, k) == with_players(a, k) + with_players(b, k),
    decreases b.len(),
{
    if b.len() == 0 {
        assert(a + b =~= a);
        assert(with_players(a, k) + with_players(b, k) =~= with_players(a, k));
    } else {
        assert((a + b).drop_last() =~= a + b.drop_last());
        lemma_with_players_concat(a, b.drop_last(), k);
        if b.last().1 == k {
            assert(with_players(a, k) + with_players(b.drop_last(), k).push(b.last()) =~= (with_players(a, k)
                + with_players(b.drop_last(), k)).push(b.last()));
        }
    }
}

proof fn lemma_with_players_none(b: Seq<(u64, u32)>, k: u32)
    requires
        forall|i: int| 0 <= i < b.len() ==> (#[trigger] b[i]).1 != k,
    ensures
        with_players(b, k) == Seq::<(u64, u32)>::empty(),
    decreases b.len(),
{
    if b.len() > 0 {
        lemma_with_players_none(b.drop_last(), k);
    }
}

/// A server is among those with its player count exactly when it is among
/// the servers.
pub proof fn lemma_with_players_contains(s: Seq<(u64, u32)>, x: (u64, u32))
    ensures
        s.contains(x) <==> with_players(s, x.1).contains(x),
    decreases s.len(),
{
    if s.len() > 0 {
        let d = s.drop_last();
        lemma_with_players_contains(d, x);
        let w = with_players(d, x.1);
        if s.contains(x) && !d.contains(x) {
            assert(s.last() == x) by {
                let i = choose|i: int| 0 <= i < s.len() && s[i] == x;
                if i < s.len() - 1 {
                    assert(d[i] == x);
                }
            }
            assert(w.push(x)[w.len() as int] == x);
        }
        if d.contains(x) {
            let i = choose|i: int| 0 <= i < d.len() && d[i] == x;
            assert(s[i] == x);
        }
        if with_players(s, x.1).contains(x) && !w.contains(x) {
            assert(s.last() == x) by {
                let i = choose|i: int| 0 <= i < with_players(s, x.1).len() && with_players(s, x.1)[i] == x;
                if s.last().1 == x.1 {
                    if i < w.len() {
                        assert(w[i] == x);
                    }
                } else {
                    assert(w[i] == x);
                }
            }
            assert(s[s.len() - 1] == x);
        }
        if w.contains(x) {
            let i = choose|i: int| 0 <= i < w.len() && w[i] == x;
            if s.last().1 == x.1 {
                assert(w.push(s.last())[i] == x);
            }
        }
    }
}

/// Orders the servers so that the fullest come first, servers with as many
/// players keeping the order in which they were found (a stable sort by
/// player count, descending).
pub fn sort_by_players(servers: &Vec<(u64, u32)>) -> (r: Vec<(u64, u32)>)
    ensures
        r.len() == servers.len(),
        sorted_by_players(r@),
        forall|k: u32| #[trigger] with_players(r@, k) == with_players(servers@, k),
        forall|x: (u64, u32)| #[trigger] r@.contains(x) <==> servers@.contains(x),
{
    let mut r: Vec<(u64, u32)> = Vec::new();
    let mut i: usize = 0;
    while i < servers.len()
        invariant
            i <= servers.len(),
            r.len() == i,
            sorted_by_players(r@),
            forall|k: u32| #[trigger] with_players(r@, k) == with_players(servers@.subrange(0, i as int), k),
        decreases servers.len() - i,
    {
        let x = servers[i];
        let mut p: usize = 0;
        while p < r.len() && r[p].1 >= x.1
            invariant
                p <= r.len(),
                forall|q: int| 0 <= q < p ==> (#[trigger] r@[q]).1 >= x.1,
            decreases r.len() - p,
        {
            p = p + 1;
        }
        let ghost old_r = r@;
        proof {
            assert forall|q: int| p <= q < old_r.len() implies (#[trigger] old_r[q]).1 < x.1 by {
                assert(old_r[p as int].1 < x.1);
                if q > p {
                    assert(old_r[p as int].1 >= old_r[q].1);
                }
            }
        }
        r.insert(p, x);
        proof {
            let pre = old_r.subrange(0, p as int);
            let post = old_r.subrange(p as int, old_r.len() as int);
            assert(r@ =~= pre.push(x) + post);
            assert(old_r =~= pre + post);
            assert(servers@.subrange(0, i as int + 1).drop_last() =~= servers@.subrange(0, i as int));
            assert(servers@.subrange(0, i as int + 1).last() == x);
            assert forall|k: u32| #[trigger] with_players(r@, k) == with_players(servers@.subrange(0, i as int + 1), k) by {
                lemma_with_players_concat(pre.push(x), post, k);
                lemma_with_players_concat(pre, post, k);
                assert(pre.push(x).drop_last() =~= pre);
                if k == x.1 {
                    assert forall|q: int| 0 <= q < post.len() implies (#[trigger] post[q]).1 != k by {
                        assert(post[q] == old_r[p + q]);
                    }
                    lemma_with_players_none(post, k);
                    assert(with_players(pre, k) + Seq::<(u64, u32)>::empty() =~= with_players(pre, k));
                    assert(with_players(pre, k).push(x) + Seq::<(u64, u32)>::empty() =~= with_players(pre, k).push(x));
                }
            }
            assert forall|a: int, b: int| 0 <= a < b < r@.len() implies #[trigger] r@[a].1 >= #[trigger] r@[b].1 by {
                if b < p {
                } else if b == p {
                    assert(old_r[a].1 >= x.1);
                } else if a < p {
                    assert(old_r[a].1 >= old_r[b - 1].1);
                } else if a == p {
                    assert(old_r[b - 1].1 < x.1);
                } else {
                    assert(old_r[a - 1].1 >= old_r[b - 1].1);
                }
            }
        }
        i = i + 1;
    }
    assert(servers@.subrange(0, servers.len() as int) =~= servers@);
    proof {
        assert forall|x: (u64, u32)| #[trigger] r@.contains(x) <==> servers@.contains(x) by {
            lemma_with_players_contains(r@, x);
            lemma_with_players_contains(servers@, x);
            assert(with_players(r@, x.1) == with_players(servers@, x.1));
        }
    }
    r
}

} // verus!
