//! The singleplayer screen: the rules a new world's name must follow, the
//! messages shown when a world cannot start, reading the port the local
//! server reports, and the texts of the world list.

use vstd::prelude::*;
use crate::reactivity::ReactableValue;
use crate::text::{
    chars_of, contains, owned, parse_unsigned, parsed_unsigned, push_char, push_decimal, push_str, replace_all, replaced,
    second_piece, split_second, trim, trimmed, decimal, unsigned_body, all_digits,
    lemma_digits_value_nonneg, all_ascii, lemma_replaced_ascii,
};

verus! {

// ---------------------------------------------------------------------------
// The values the create-world form binds to
// ---------------------------------------------------------------------------

/// The world name typed into the create-world form.
#[derive(Debug, Clone, PartialEq, Eq)]
pub struct WorldNameText(pub String);

impl ReactableValue for WorldNameText {
    open spec fn value_text(&self) -> Seq<char> {
        self.0@
    }

    open spec fn text_after_set(&self, text: Seq<char>) -> Seq<char> {
        text
    }

    fn as_value(&self) -> (r: String) {
        owned(self.0.as_str())
    }

    fn set_from_value(&mut self, new_value: &str) {
        self.0 = owned(new_value);
    }
}

/// The seed typed into the create-world form; empty for a random one.
#[derive(Debug, Clone, PartialEq, Eq)]
pub struct SeedText(pub String);

impl ReactableValue for SeedText {
    open spec fn value_text(&self) -> Seq<char> {
        self.0@
    }

    open spec fn text_after_set(&self, text: Seq<char>) -> Seq<char> {
        text
    }

    fn as_value(&self) -> (r: String) {
        owned(self.0.as_str())
    }

    fn set_from_value(&mut self, new_value: &str) {
        self.0 = owned(new_value);
    }
}

/// The message telling why the world could not be created; empty while
/// there is none, which hides it.
#[derive(Debug, Clone, PartialEq, Eq)]
pub struct WorldNameErrorMessage(pub String);

impl ReactableValue for WorldNameErrorMessage {
    open spec fn value_text(&self) -> Seq<char> {
        self.0@
    }

    open spec fn text_after_set(&self, text: Seq<char>) -> Seq<char> {
        text
    }

    fn as_value(&self) -> (r: String) {
        owned(self.0.as_str())
    }

    fn set_from_value(&mut self, new_value: &str) {
        self.0 = owned(new_value);
    }
}

impl Default for WorldNameText {
    fn default() -> (t: Self)
        ensures
            t.0@ == Seq::<char>::empty(),
    {
        WorldNameText(String::new())
    }
}

impl Default for SeedText {
    fn default() -> (t: Self)
        ensures
            t.0@ == Seq::<char>::empty(),
    {
        SeedText(String::new())
    }
}

impl Default for WorldNameErrorMessage {
    fn default() -> (t: Self)
        ensures
            t.0@ == Seq::<char>::empty(),
    {
        WorldNameErrorMessage(String::new())
    }
}

// ---------------------------------------------------------------------------
// World names
// ---------------------------------------------------------------------------

/// Why a world could not be started.
#[derive(Debug, Clone, Copy, PartialEq, Eq, Structural)]
pub enum WorldStartError {
    /// The name is empty.
    EmptyWorldName,
    /// The name is longer than [`MAX_WORLD_NAME_BYTES`] bytes.
    WorldNameTooLong,
    /// The name holds a character other than a letter, a digit, `-` or `_`.
    InvalidName(char),
    /// The server program was not found or could not be started.
    MissingServerExecutable,
    /// The server did not report the port it listens on in time.
    CouldNotFindPort,
}

/// The longest a world's folder name may be, in bytes of UTF-8.
pub const MAX_WORLD_NAME_BYTES: usize = 40;

/// Whether a character is a letter or a digit in Unicode (the
/// `Alphabetic` or `Numeric` property).
pub uninterp spec fn alphanumeric(c: char) -> bool;

/// `char::is_alphanumeric`.
///
/// Claims that the result is [`alphanumeric`] of `c`, and that among ASCII
/// characters exactly the letters and digits are alphanumeric; what it says
/// of other characters is left to Unicode's tables.
#[verifier::external_body]
fn char_is_alphanumeric(c: char) -> (r: bool)
    ensures
        r == alphanumeric(c),
        c <= '\u{7f}' ==> (r == (('a' <= c && c <= 'z') || ('A' <= c && c <= 'Z') || ('0' <= c && c <= '9'))),
{
    c.is_alphanumeric()
}

/// Whether a character may stand in a world's folder name.
pub open spec fn allowed_in_name(c: char) -> bool {
    alphanumeric(c) || c == '-' || c == '_'
}

/// The first character of `s` that may not stand in a world's name.
pub open spec fn first_invalid(s: Seq<char>) -> Option<char>
    decreases s.len(),
{
    if s.len() == 0 {
        None
    } else if !allowed_in_name(s[0]) {
        Some(s[0])
    } else {
        first_invalid(s.skip(1))
    }
}

/// Whether an ASCII character may stand in a world's folder name: a letter,
/// a digit, `-` or `_`.
pub open spec fn ascii_allowed_in_name(c: char) -> bool {
    ('a' <= c && c <= 'z') || ('A' <= c && c <= 'Z') || ('0' <= c && c <= '9') || c == '-' || c == '_'
}

/// The first character of an ASCII text that may not stand in a world's
/// name.
pub open spec fn first_invalid_ascii(s: Seq<char>) -> Option<char>
    decreases s.len(),
{
    if s.len() == 0 {
        None
    } else if !ascii_allowed_in_name(s[0]) {
        Some(s[0])
    } else {
        first_invalid_ascii(s.skip(1))
    }
}

/// The first character of `s` that may not stand in a world's name; for an
/// ASCII text, the first that is no letter, digit, `-` or `_`.
pub fn find_invalid_char(s: &str) -> (r: Option<char>)
    ensures
        r == first_invalid(s@),
        all_ascii(s@) ==> r == first_invalid_ascii(s@),
{
    let cs = chars_of(s);
    let mut i: usize = 0;
    assert(cs@.skip(0) =~= cs@);
    while i < cs.len()
        invariant
            i <= cs.len(),
            cs@ == s@,
            first_invalid(s@) == first_invalid(cs@.skip(i as int)),
            all_ascii(s@) ==> first_invalid_ascii(s@) == first_invalid_ascii(cs@.skip(i as int)),
        decreases cs.len() - i,
    {
        let c = cs[i];
        assert(cs@.skip(i as int)[0] == c);
        assert(all_ascii(s@) ==> s@[i as int] <= '\u{7f}');
        let ok = char_is_alphanumeric(c) || c == '-' || c == '_';
        if !ok {
            return Some(c);
        }
        assert(cs@.skip(i as int).skip(1) =~= cs@.skip(i + 1));
        i = i + 1;
    }
    None
}

/// How many bytes a character takes in UTF-8.
pub open spec fn utf8_width(c: char) -> nat {
    if (c as u32) < 0x80 {
        1
    } else if (c as u32) < 0x800 {
        2
    } else if (c as u32) < 0x10000 {
        3
    } else {
        4
    }
}

/// How many bytes a text takes in UTF-8 (`str::len`).
pub open spec fn utf8_len(s: Seq<char>) -> nat
    decreases s.len(),
{
    if s.len() == 0 {
        0
    } else {
        utf8_len(s.drop_last()) + utf8_width(s.last())
    }
}

/// Whether a text takes more than `limit` bytes in UTF-8
/// (`s.len() > limit`).
pub fn longer_than_bytes(s: &str, limit: usize) -> (r: bool)
    ensures
        r == (utf8_len(s@) > limit),
{
    let cs = chars_of(s);
    let mut n: usize = 0;
    let mut i: usize = 0;
    while i < cs.len()
        invariant
            i <= cs.len(),
            cs@ == s@,
            n == utf8_len(cs@.subrange(0, i as int)),
            n <= limit,
        decreases cs.len() - i,
    {
        assert(cs@.subrange(0, i as int + 1).drop_last() =~= cs@.subrange(0, i as int));
        let code = cs[i] as u32;
        let w: usize = if code < 0x80 {
            1
        } else if code < 0x800 {
            2
        } else if code < 0x10000 {
            3
        } else {
            4
        };
        if w > limit - n {
            proof {
                lemma_utf8_len_prefix(cs@, i as int + 1);
            }
            return true;
        }
        n = n + w;
        i = i + 1;
    }
    assert(cs@.subrange(0, cs.len() as int) =~= cs@);
    false
}

/// A prefix takes no more bytes than the whole.
pub proof fn lemma_utf8_len_prefix(s: Seq<char>, k: int)
    requires
        0 <= k <= s.len(),
    ensures
        utf8_len(s.subrange(0, k)) <= utf8_len(s),
    decreases s.len() - k,
{
    if k < s.len() {
        lemma_utf8_len_prefix(s, k + 1);
        assert(s.subrange(0, k + 1).drop_last() =~= s.subrange(0, k));
    } else {
        assert(s.subrange(0, k) =~= s);
    }
}

/// Counting from the front: the first character's width, then the rest.
proof fn lemma_utf8_len_front(s: Seq<char>)
    requires
        s.len() > 0,
    ensures
        utf8_len(s) == utf8_width(s[0]) + utf8_len(s.drop_first()),
    decreases s.len(),
{
    if s.len() > 1 {
        let d = s.drop_last();
        lemma_utf8_len_front(d);
        assert(d.drop_first() =~= s.drop_first().drop_last());
        assert(s.drop_first().last() == s.last());
        assert(d[0] == s[0]);
        assert(utf8_len(s.drop_first()) == utf8_len(s.drop_first().drop_last()) + utf8_width(s.drop_first().last()));
    } else {
        assert(s.drop_first().len() == 0);
        assert(s.drop_last().len() == 0);
        assert(s.last() == s[0]);
        assert(utf8_len(s.drop_first()) == 0);
        assert(utf8_len(s.drop_last()) == 0);
    }
}

/// A character's width is the length of its UTF-8 encoding.
proof fn lemma_utf8_width_encoding(c: char)
    ensures
        utf8_width(c) == vstd::utf8::encode_scalar(c as u32).len(),
{
    vstd::utf8::char_is_scalar(c);
}

/// [`utf8_len`] is the number of bytes of the text's UTF-8 encoding: one
/// byte below U+0080, two below U+0800, three below U+10000 and four above,
/// so that a name is measured as `str::len` measures it.
pub proof fn law_utf8_len_is_encoding_length(s: Seq<char>)
    ensures
        utf8_len(s) == vstd::utf8::encode_utf8(s).len(),
    decreases s.len(),
{
    if s.len() > 0 {
        lemma_utf8_len_front(s);
        lemma_utf8_width_encoding(s[0]);
        law_utf8_len_is_encoding_length(s.drop_first());
    }
}

/// The folder name a world gets: its name with spaces made underscores.
pub open spec fn world_folder_name(name: Seq<char>) -> Seq<char> {
    replaced(name, seq![' '], seq!['_'])
}

/// Whether a world of this name may be created, and the folder name it then
/// gets.
pub open spec fn validated_world_name(name: Seq<char>) -> Result<Seq<char>, WorldStartError> {
    let folder = world_folder_name(name);
    if folder.len() == 0 {
        Err(WorldStartError::EmptyWorldName)
    } else if utf8_len(folder) > MAX_WORLD_NAME_BYTES {
        Err(WorldStartError::WorldNameTooLong)
    } else {
        match first_invalid(folder) {
            Some(c) => Err(WorldStartError::InvalidName(c)),
            None => Ok(folder),
        }
    }
}

/// [`validated_world_name`] for an ASCII name, where each character takes
/// one byte and the letters and digits are those of ASCII.
pub open spec fn validated_ascii_world_name(name: Seq<char>) -> Result<Seq<char>, WorldStartError> {
    let folder = world_folder_name(name);
    if folder.len() == 0 {
        Err(WorldStartError::EmptyWorldName)
    } else if folder.len() > MAX_WORLD_NAME_BYTES {
        Err(WorldStartError::WorldNameTooLong)
    } else {
        match first_invalid_ascii(folder) {
            Some(c) => Err(WorldStartError::InvalidName(c)),
            None => Ok(folder),
        }
    }
}

/// An ASCII text takes one byte per character.
pub proof fn lemma_utf8_len_ascii(s: Seq<char>)
    requires
        all_ascii(s),
    ensures
        utf8_len(s) == s.len(),
    decreases s.len(),
{
    if s.len() > 0 {
        let d = s.drop_last();
        assert forall|i: int| 0 <= i < d.len() implies '\0' <= #[trigger] d[i] <= '\u{7f}' by {
            assert(d[i] == s[i]);
        }
        lemma_utf8_len_ascii(d);
        assert('\0' <= s[s.len() - 1] <= '\u{7f}');
        assert((s.last() as u32) < 0x80);
        assert(utf8_width(s.last()) == 1);
    }
}

/// Checks the name typed for a world before its server is started: spaces
/// become underscores; the result must not be empty, must take at most
/// [`MAX_WORLD_NAME_BYTES`] bytes, and may hold only letters, digits, `-`
/// and `_`. Returns the folder name.
pub fn validate_world_name(world_name: &str) -> (r: Result<String, WorldStartError>)
    ensures
        match r {
            Ok(folder) => validated_world_name(world_name@) == Ok::<Seq<char>, WorldStartError>(folder@),
            Err(e) => validated_world_name(world_name@) == Err::<Seq<char>, WorldStartError>(e),
        },
        all_ascii(world_name@) ==> match r {
            Ok(folder) => validated_ascii_world_name(world_name@) == Ok::<Seq<char>, WorldStartError>(folder@),
            Err(e) => validated_ascii_world_name(world_name@) == Err::<Seq<char>, WorldStartError>(e),
        },
{
    proof {
        reveal_strlit(" ");
        reveal_strlit("_");
        assert(" "@ =~= seq![' ']);
        assert("_"@ =~= seq!['_']);
    }
    let folder = replace_all(world_name, " ", "_");
    proof {
        if all_ascii(world_name@) {
            assert(all_ascii(seq!['_']));
            lemma_replaced_ascii(world_name@, seq![' '], seq!['_']);
            lemma_utf8_len_ascii(folder@);
        }
    }
    let empty = str_eq_empty(folder.as_str());
    if empty {
        return Err(WorldStartError::EmptyWorldName);
    }
    if longer_than_bytes(folder.as_str(), MAX_WORLD_NAME_BYTES) {
        return Err(WorldStartError::WorldNameTooLong);
    }
    match find_invalid_char(folder.as_str()) {
        Some(c) => Err(WorldStartError::InvalidName(c)),
        None => Ok(folder),
    }
}

/// A world's name is refused as too long exactly when its folder name is not
/// empty and its UTF-8 encoding takes more than [`MAX_WORLD_NAME_BYTES`]
/// bytes.
pub proof fn law_long_names_are_refused(name: Seq<char>)
    ensures
        world_folder_name(name).len() > 0 ==> (validated_world_name(name) == Err::<Seq<char>, WorldStartError>(
            WorldStartError::WorldNameTooLong,
        ) <==> vstd::utf8::encode_utf8(world_folder_name(name)).len() > MAX_WORLD_NAME_BYTES),
{
    law_utf8_len_is_encoding_length(world_folder_name(name));
}

/// Whether a text is empty.
fn str_eq_empty(s: &str) -> (r: bool)
    ensures
        r == (s@.len() == 0),
{
    let cs = chars_of(s);
    cs.len() == 0
}

// ---------------------------------------------------------------------------
// Messages and texts
// ---------------------------------------------------------------------------

/// The message shown for each reason a world could not start.
pub open spec fn spec_error_message(e: WorldStartError) -> Seq<char> {
    match e {
        WorldStartError::EmptyWorldName => "World name cannot be empty"@,
        WorldStartError::WorldNameTooLong => "World name cannot exceed 40 characters"@,
        WorldStartError::InvalidName(c) => "World name cannot contain '"@ + seq![c, '\''],
        WorldStartError::CouldNotFindPort => "Error starting server (port error). Please try again"@,
        WorldStartError::MissingServerExecutable => "Could not find server executable file. Please verify your installation"@,
    }
}

/// The message shown under the world name when the world could not start.
pub fn error_message(e: WorldStartError) -> (m: String)
    ensures
        m@ == spec_error_message(e),
{
    match e {
        WorldStartError::EmptyWorldName => owned("World name cannot be empty"),
        WorldStartError::WorldNameTooLong => owned("World name cannot exceed 40 characters"),
        WorldStartError::InvalidName(c) => {
            let mut m = owned("World name cannot contain '");
            push_char(&mut m, c);
            push_char(&mut m, '\'');
            proof {
                assert(m@ =~= spec_error_message(e));
            }
            m
        },
        WorldStartError::CouldNotFindPort => owned("Error starting server (port error). Please try again"),
        WorldStartError::MissingServerExecutable => owned(
            "Could not find server executable file. Please verify your installation",
        ),
    }
}

/// The name a world is listed under: its folder name with underscores shown
/// as spaces.
pub fn world_display_name(folder: &str) -> (n: String)
    ensures
        n@ == replaced(folder@, seq!['_'], seq![' ']),
{
    proof {
        reveal_strlit(" ");
        reveal_strlit("_");
        assert(" "@ =~= seq![' ']);
        assert("_"@ =~= seq!['_']);
    }
    replace_all(folder, "_", " ")
}

/// The question asked before a world is deleted.
pub fn delete_prompt(folder: &str) -> (p: String)
    ensures
        p@ == "Are you sure you want to delete "@ + replaced(folder@, seq!['_'], seq![' ']) + seq!['?'],
{
    let mut p = owned("Are you sure you want to delete ");
    let name = world_display_name(folder);
    push_str(&mut p, name.as_str());
    push_char(&mut p, '?');
    p
}

/// The path of a world's folder, relative to the game's directory.
pub fn world_path(folder: &str) -> (p: String)
    ensures
        p@ == "worlds/"@ + folder@,
{
    let mut p = owned("worlds/");
    push_str(&mut p, folder);
    p
}

/// The seed to hand the server: none when the field is empty.
pub fn seed_argument(seed: &str) -> (r: Option<String>)
    ensures
        seed@.len() == 0 ==> r is None,
        seed@.len() > 0 ==> (r matches Some(s) && s@ == seed@),
{
    if str_eq_empty(seed) {
        None
    } else {
        Some(owned(seed))
    }
}

/// The arguments the server is started with: the world's folder, that it
/// runs locally, and the seed if one was given.
pub fn server_arguments(world_folder_path: &str, seed: &Option<String>) -> (args: Vec<String>)
    ensures
        args@.len() == (if seed is Some { 5int } else { 3int }),
        args@[0]@ == "--world"@,
        args@[1]@ == world_folder_path@,
        args@[2]@ == "--local"@,
        seed matches Some(sd) ==> args@[3]@ == "--seed"@ && args@[4]@ == sd@,
{
    let mut args: Vec<String> = Vec::new();
    args.push(owned("--world"));
    args.push(owned(world_folder_path));
    args.push(owned("--local"));
    match seed {
        Some(sd) => {
            args.push(owned("--seed"));
            args.push(owned(sd.as_str()));
        },
        None => {},
    }
    args
}

/// What a line the server prints says of its port.
#[derive(Debug, Clone, Copy, PartialEq, Eq, Structural)]
pub enum PortMessage {
    /// The line does not report a port.
    NotAPortLine,
    /// The line reports a port that is no `u16`.
    BadPort,
    /// The server listens on this port.
    Port(u16),
}

/// What a line the server prints says of its port: a line holding `Port: `
/// reports the text after it, up to a further `Port: `, trimmed.
pub open spec fn spec_port_message(line: Seq<char>) -> PortMessage {
    let key = "Port: "@;
    if !contains(line, key) {
        PortMessage::NotAPortLine
    } else {
        match parsed_unsigned(trimmed(second_piece(line, key)), 65535) {
            Some(p) => PortMessage::Port(p as u16),
            None => PortMessage::BadPort,
        }
    }
}

/// Reads a line the server printed for the port it listens on.
pub fn port_message(line: &str) -> (m: PortMessage)
    ensures
        m == spec_port_message(line@),
{
    proof {
        reveal_strlit("Port: ");
    }
    match split_second(line, "Port: ") {
        None => PortMessage::NotAPortLine,
        Some(piece) => {
            let t = trim(piece.as_str());
            proof {
                let body = unsigned_body(t@);
                if body.len() > 0 && all_digits(body) {
                    lemma_digits_value_nonneg(body);
                }
            }
            match parse_unsigned(t.as_str(), 65535) {
                Some(p) => PortMessage::Port(p as u16),
                None => PortMessage::BadPort,
            }
        },
    }
}

/// The address of a local server listening on `port`.
pub fn local_address(port: u16) -> (a: String)
    ensures
        a@ == "127.0.0.1:"@ + decimal(port as nat),
{
    let mut a = owned("127.0.0.1:");
    push_decimal(&mut a, port as u64);
    a
}

/// How many times the client checks, ten milliseconds apart, for the port
/// before it gives up on the server.
pub const MAX_PORT_CHECKS: u32 = 200;

/// Whether to keep waiting for the port after `checks` checks found none.
pub fn keep_waiting_for_port(checks: u32) -> (r: bool)
    ensures
        r == (checks < MAX_PORT_CHECKS),
{
    checks < MAX_PORT_CHECKS
}

} // verus!
