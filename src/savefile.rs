//! Save records: the text that keeps a world's name, seed, version, time
//! and actor state between sessions.
use vstd::prelude::*;
use crate::text::{digits, push_digits};

verus! {

#[derive(Debug)]
pub enum CreateFileError {
    SystemError(String),
    FileExists,
}

/// What the list of saved worlds shows of one world.
#[derive(Debug)]
pub struct Meta {
    pub path: String,
    pub name: String,
    pub seed: String,
    pub version: String,
    /// Seconds since the Unix epoch.
    pub time: u64,
    pub current_tick: u128,
}

impl Meta {
    /// Meta data of a world that has not been saved yet, made at `time`.
    pub fn new(name: &str, seed: &str, version: &str, time: u64) -> (r: Meta)
        ensures
            r.path@.len() == 0,
            r.name@ == name@,
            r.seed@ == seed@,
            r.version@ == version@,
            r.time == time,
            r.current_tick == 0,
    {
        Meta {
            path: String::new(),
            name: String::from_str(name),
            seed: String::from_str(seed),
            version: String::from_str(version),
            time,
            current_tick: 0,
        }
    }

    pub fn with_path(self, path: &str) -> (r: Meta)
        ensures
            r.path@ == path@,
            r.name == self.name,
            r.seed == self.seed,
            r.version == self.version,
            r.time == self.time,
            r.current_tick == self.current_tick,
    {
        let mut m = self;
        m.path = String::from_str(path);
        m
    }
}

impl PartialEq for Meta {
    /// Two entries are the same world when they have the same path.
    fn eq(&self, other: &Meta) -> (r: bool) {
        self.path == other.path
    }
}

impl vstd::std_specs::cmp::PartialEqSpecImpl for Meta {
    open spec fn obeys_eq_spec() -> bool {
        true
    }

    open spec fn eq_spec(&self, other: &Meta) -> bool {
        self.path@ == other.path@
    }
}

/// Relies on `String::push`: appends one character.
#[verifier::external_body]
fn push_char(s: &mut String, c: char)
    ensures
        final(s)@ == old(s)@.push(c),
{
    s.push(c)
}

/// Whether `char::is_whitespace` holds of `c`: the Unicode property
/// White_Space.
pub uninterp spec fn is_white_space(c: char) -> bool;

/// `s` without its leading whitespace.
pub open spec fn trim_start(s: Seq<char>) -> Seq<char>
    decreases s.len(),
{
    if s.len() > 0 && is_white_space(s[0]) {
        trim_start(s.drop_first())
    } else {
        s
    }
}

/// `s` without its trailing whitespace.
pub open spec fn trim_end(s: Seq<char>) -> Seq<char>
    decreases s.len(),
{
    if s.len() > 0 && is_white_space(s.last()) {
        trim_end(s.drop_last())
    } else {
        s
    }
}

/// Relies on `str::trim`: the slice of `s` without leading and trailing
/// whitespace, whitespace being what `char::is_whitespace` accepts.
#[verifier::external_body]
fn trim(s: &str) -> (r: &str)
    ensures
        r@ == trim_end(trim_start(s@)),
        r@.len() > 0 ==> !is_white_space(r@[0]) && !is_white_space(r@.last()),
{
    s.trim()
}

/// The characters of `s` that a world's name keeps: no line breaks and no
/// path separators.
pub open spec fn name_chars(s: Seq<char>) -> Seq<char> {
    s.filter(|c: char| c != '\n' && c != '/' && c != '\\')
}

/// The file name of a world: its name with spaces as underscores.
pub open spec fn file_stem(s: Seq<char>) -> Seq<char> {
    s.map_values(|c: char| if c == ' ' { '_' } else { c })
}

/// A world as its save file lists it.
#[derive(Debug)]
pub struct SaveFile {
    pub path: String,
    pub version: String,
    /// Seconds since the Unix epoch.
    pub time: u64,
    pub name: String,
    pub seed: String,
    pub avatar_data: String,
}

fn clean_name(s: &str) -> (r: String)
    ensures
        r@ == name_chars(s@),
{
    let n = s.unicode_len();
    let mut r = String::new();
    let mut i: usize = 0;
    while i < n
        invariant
            n == s@.len(),
            i <= n,
            r@ == name_chars(s@.subrange(0, i as int)),
        decreases n - i,
    {
        let c = s.get_char(i);
        proof {
            let pre = s@.subrange(0, i as int);
            assert(s@.subrange(0, i + 1) =~= pre.push(c));
            pre.lemma_filter_push(c, |c: char| c != '\n' && c != '/' && c != '\\');
        }
        if c != '\n' && c != '/' && c != '\\' {
            push_char(&mut r, c);
        }
        i = i + 1;
    }
    assert(s@.subrange(0, n as int) =~= s@);
    r
}

fn stem_of(s: &str) -> (r: String)
    ensures
        r@ == file_stem(s@),
{
    let n = s.unicode_len();
    let mut r = String::new();
    let mut i: usize = 0;
    while i < n
        invariant
            n == s@.len(),
            i <= n,
            r@ =~= file_stem(s@.subrange(0, i as int)),
        decreases n - i,
    {
        let c = s.get_char(i);
        if c == ' ' {
            push_char(&mut r, '_');
        } else {
            push_char(&mut r, c);
        }
        i = i + 1;
        assert(r@ =~= file_stem(s@.subrange(0, i as int)));
    }
    assert(s@.subrange(0, n as int) =~= s@);
    r
}

impl SaveFile {
    /// The save file of a new world. The name is trimmed and loses line
    /// breaks and path separators; the file is `save/<name>.save`, with
    /// spaces in the name as underscores.
    pub fn new(name: &str, seed: &str, version: &str, time: u64) -> (r: SaveFile)
        ensures
            r.name@ == name_chars(trim_end(trim_start(name@))),
            r.path@ == "save/"@ + file_stem(r.name@) + ".save"@,
            r.seed@ == seed@,
            r.version@ == version@,
            r.time == time,
            r.avatar_data@.len() == 0,
    {
        let name = clean_name(trim(name));
        let mut path = String::from_str("save/");
        let stem = stem_of(name.as_str());
        path.append(stem.as_str());
        path.append(".save");
        SaveFile {
            path,
            version: String::from_str(version),
            time,
            name,
            seed: String::from_str(seed),
            avatar_data: String::new(),
        }
    }
}

/// Index of the first line break at or after `i`, or the length of `s`.
pub open spec fn line_end(s: Seq<char>, i: int) -> int
    decreases s.len() - i,
{
    if i < 0 || i >= s.len() {
        s.len() as int
    } else if s[i] == '\n' {
        i
    } else {
        line_end(s, i + 1)
    }
}

/// A line without the carriage return that may end it.
pub open spec fn strip_cr(l: Seq<char>) -> Seq<char> {
    if l.len() > 0 && l.last() == '\r' {
        l.drop_last()
    } else {
        l
    }
}

/// The line of `s` that starts at `i`: a carriage return goes only where a
/// line break follows it.
pub open spec fn line_at(s: Seq<char>, i: int) -> Seq<char> {
    let e = line_end(s, i);
    if e < s.len() {
        strip_cr(s.subrange(i, e))
    } else {
        s.subrange(i, e)
    }
}

/// The lines of `s` from index `i` on, as a reader of lines sees them: a
/// break ends a line, and after a final break no empty line follows.
pub open spec fn lines_from(s: Seq<char>, i: int) -> Seq<Seq<char>>
    decreases s.len() - i,
{
    if i < 0 || i >= s.len() {
        Seq::empty()
    } else {
        let e = line_end(s, i);
        if e < i || e >= s.len() {
            seq![line_at(s, i)]
        } else {
            seq![line_at(s, i)] + lines_from(s, e + 1)
        }
    }
}

pub open spec fn is_digit(c: char) -> bool {
    '0' <= c <= '9'
}

pub open spec fn all_digits(s: Seq<char>) -> bool {
    forall|k: int| 0 <= k < s.len() ==> is_digit(#[trigger] s[k])
}

/// A number's text without the `+` that may lead it.
pub open spec fn unsigned_body(s: Seq<char>) -> Seq<char> {
    if s.len() > 0 && s[0] == '+' {
        s.drop_first()
    } else {
        s
    }
}

/// The value of a string of decimal digits.
pub open spec fn digits_value(s: Seq<char>) -> nat
    decreases s.len(),
{
    if s.len() == 0 {
        0
    } else {
        digits_value(s.drop_last()) * 10 + (s.last() as nat - '0' as nat) as nat
    }
}

/// How a `u64` is read from text: an optional `+`, then one or more
/// decimal digits whose value fits.
pub open spec fn parse_u64(s: Seq<char>) -> Option<u64> {
    let body = unsigned_body(s);
    if body.len() > 0 && all_digits(body) && digits_value(body) <= u64::MAX {
        Some(digits_value(body) as u64)
    } else {
        None
    }
}

/// What a record holds, if its text is well formed: non-empty name, seed
/// and version lines, a time line that reads as a `u64`, and the actor
/// state on the fifth line, empty where there is none.
pub open spec fn parse_record(text: Seq<char>) -> Option<(Seq<char>, Seq<char>, Seq<char>, u64, Seq<char>)> {
    let ls = lines_from(text, 0);
    if ls.len() >= 4 && ls[0].len() > 0 && ls[1].len() > 0 && ls[2].len() > 0 && parse_u64(ls[3]) is Some {
        Some((ls[0], ls[1], ls[2], parse_u64(ls[3]).unwrap(), if ls.len() > 4 {
            ls[4]
        } else {
            Seq::empty()
        }))
    } else {
        None
    }
}

/// The text of a record; the actor state line is left out while there is
/// none.
pub open spec fn record_text(name: Seq<char>, seed: Seq<char>, version: Seq<char>, time: u64, avatar: Seq<char>) -> Seq<char> {
    let head = name + "\n"@ + seed + "\n"@ + version + "\n"@ + digits(time as nat);
    if avatar.len() > 0 {
        head + "\n"@ + avatar
    } else {
        head
    }
}

/// The line of `text` that starts at `start`, and the index of the break
/// that ends it (the length of the text where none does).
fn read_line(text: &str, n: usize, start: usize) -> (r: (String, usize))
    requires
        n == text@.len(),
        start < n,
    ensures
        r.0@ == line_at(text@, start as int),
        r.1 == line_end(text@, start as int),
        start <= r.1 <= n,
{
    let mut line = String::new();
    let mut i = start;
    while i < n && text.get_char(i) != '\n'
        invariant
            n == text@.len(),
            start <= i <= n,
            line@ == text@.subrange(start as int, i as int),
            line_end(text@, start as int) == line_end(text@, i as int),
        decreases n - i,
    {
        push_char(&mut line, text.get_char(i));
        i = i + 1;
        assert(line@ =~= text@.subrange(start as int, i as int));
    }
    let l = line.unicode_len();
    if i < n && l > 0 && line.get_char(l - 1) == '\r' {
        let mut trimmed = String::new();
        let mut k: usize = 0;
        while k < l - 1
            invariant
                l == line@.len(),
                l > 0,
                k <= l - 1,
                trimmed@ == line@.subrange(0, k as int),
            decreases l - 1 - k,
        {
            push_char(&mut trimmed, line.get_char(k));
            k = k + 1;
            assert(trimmed@ =~= line@.subrange(0, k as int));
        }
        assert(trimmed@ =~= line@.drop_last());
        (trimmed, i)
    } else {
        (line, i)
    }
}

/// The first lines of `text`, at most `max` of them.
fn first_lines(text: &str, max: usize) -> (r: Vec<String>)
    ensures
        r@.len() == if lines_from(text@, 0).len() < max {
            lines_from(text@, 0).len() as int
        } else {
            max as int
        },
        forall|k: int| 0 <= k < r@.len() ==> (#[trigger] r@[k])@ == lines_from(text@, 0)[k],
{
    let n = text.unicode_len();
    let ghost all = lines_from(text@, 0);
    let ghost mut got: Seq<Seq<char>> = Seq::empty();
    let mut lines: Vec<String> = Vec::new();
    let mut pos: usize = 0;
    while pos < n && lines.len() < max
        invariant
            n == text@.len(),
            pos <= n,
            all == lines_from(text@, 0),
            lines@.len() <= max,
            got.len() == lines@.len(),
            forall|k: int| 0 <= k < lines@.len() ==> (#[trigger] lines@[k])@ == got[k],
            all == got + if pos < n {
                lines_from(text@, pos as int)
            } else {
                Seq::empty()
            },
        decreases n - pos,
    {
        let (line, end) = read_line(text, n, pos);
        proof {
            assert(lines_from(text@, pos as int) == seq![line@] + if end < n {
                lines_from(text@, end + 1)
            } else {
                Seq::empty()
            });
            got = got.push(line@);
        }
        lines.push(line);
        pos = if end < n {
            end + 1
        } else {
            n
        };
        assert(all =~= got + if pos < n {
            lines_from(text@, pos as int)
        } else {
            Seq::empty()
        });
    }
    lines
}

/// Reads a `u64` from text, as `parse_u64` says.
pub fn read_u64(s: &str) -> (r: Option<u64>)
    ensures
        r == parse_u64(s@),
{
    let n = s.unicode_len();
    let start: usize = if n > 0 && s.get_char(0) == '+' {
        1
    } else {
        0
    };
    let ghost body = if s@.len() > 0 && s@[0] == '+' {
        s@.drop_first()
    } else {
        s@
    };
    assert(body =~= s@.subrange(start as int, n as int));
    if start >= n {
        return None;
    }
    let mut value: u64 = 0;
    let mut i = start;
    while i < n
        invariant
            n == s@.len(),
            start <= i <= n,
            body == s@.subrange(start as int, n as int),
            body == unsigned_body(s@),
            forall|k: int| start <= k < i ==> is_digit(#[trigger] s@[k]),
            value == digits_value(s@.subrange(start as int, i as int)),
        decreases n - i,
    {
        let c = s.get_char(i);
        assert(s@.subrange(start as int, i + 1).drop_last() =~= s@.subrange(start as int, i as int));
        if !('0' <= c && c <= '9') {
            assert(!is_digit(body[i - start]));
            assert(!(forall|k: int| 0 <= k < body.len() ==> is_digit(#[trigger] body[k])));
            return None;
        }
        let d = (c as u32 - '0' as u32) as u64;
        let ghost next = s@.subrange(start as int, i + 1);
        assert(next =~= body.subrange(0, i - start + 1));
        assert(digits_value(next) == value * 10 + d);
        match value.checked_mul(10) {
            Some(v) => match v.checked_add(d) {
                Some(w) => {
                    value = w;
                },
                None => {
                    proof {
                        if forall|k: int| 0 <= k < body.len() ==> is_digit(#[trigger] body[k]) {
                            lemma_digits_value_grows(body, i - start + 1);
                            assert(digits_value(body) > u64::MAX);
                        }
                    }
                    return None;
                },
            },
            None => {
                proof {
                    if forall|k: int| 0 <= k < body.len() ==> is_digit(#[trigger] body[k]) {
                        lemma_digits_value_grows(body, i - start + 1);
                    }
                }
                return None;
            },
        }
        i = i + 1;
    }
    assert(s@.subrange(start as int, n as int) =~= body);
    assert forall|k: int| 0 <= k < body.len() implies is_digit(#[trigger] body[k]) by {
        assert(body[k] == s@[k + start]);
    }
    Some(value)
}

/// A longer string of digits is worth at least as much as its prefix.
proof fn lemma_digits_value_grows(s: Seq<char>, k: int)
    requires
        0 <= k <= s.len(),
        forall|j: int| 0 <= j < s.len() ==> is_digit(#[trigger] s[j]),
    ensures
        digits_value(s.subrange(0, k)) <= digits_value(s),
    decreases s.len() - k,
{
    if k < s.len() {
        lemma_digits_value_grows(s, k + 1);
        let t = s.subrange(0, k + 1);
        assert(t.drop_last() =~= s.subrange(0, k));
        assert(is_digit(t.last()));
        assert(digits_value(t) == digits_value(t.drop_last()) * 10 + (t.last() as nat - '0' as nat) as nat);
    } else {
        assert(s.subrange(0, k) =~= s);
    }
}

/// A number for a text seed: `h * 31 + c` over its characters, modulo 2^64.
pub open spec fn text_hash(s: Seq<char>) -> u64
    decreases s.len(),
{
    if s.len() == 0 {
        0
    } else {
        ((text_hash(s.drop_last()) as int * 31 + s.last() as int) % 0x1_0000_0000_0000_0000) as u64
    }
}

/// The world seed that a seed text stands for: the number it reads as, or
/// else its hash.
pub open spec fn seed_of(s: Seq<char>) -> u64 {
    match parse_u64(s) {
        Some(n) => n,
        None => text_hash(s),
    }
}

pub fn seed_number(text: &str) -> (r: u64)
    ensures
        r == seed_of(text@),
{
    if let Some(n) = read_u64(text) {
        return n;
    }
    let n = text.unicode_len();
    let mut h: u64 = 0;
    let mut i: usize = 0;
    while i < n
        invariant
            n == text@.len(),
            i <= n,
            h == text_hash(text@.subrange(0, i as int)),
        decreases n - i,
    {
        let c = text.get_char(i);
        assert(text@.subrange(0, i + 1).drop_last() =~= text@.subrange(0, i as int));
        h = h.wrapping_mul(31).wrapping_add(c as u64);
        proof {
            let m = 0x1_0000_0000_0000_0000int;
            let a = text_hash(text@.subrange(0, i as int)) as int;
            vstd::arithmetic::div_mod::lemma_add_mod_noop(a * 31, c as int, m);
        }
        i = i + 1;
    }
    assert(text@.subrange(0, n as int) =~= text@);
    h
}

impl SaveFile {
    /// The text that a save file holds for this world.
    pub fn record(&self) -> (r: String)
        ensures
            r@ == record_text(self.name@, self.seed@, self.version@, self.time, self.avatar_data@),
    {
        let mut s = self.name.clone();
        s.append("\n");
        s.append(self.seed.as_str());
        s.append("\n");
        s.append(self.version.as_str());
        s.append("\n");
        push_digits(&mut s, self.time);
        if self.avatar_data.unicode_len() > 0 {
            s.append("\n");
            s.append(self.avatar_data.as_str());
        }
        s
    }

    /// Reads the save file at `path` from its text; `None` where the text
    /// is not a well formed record.
    pub fn parse(path: &str, text: &str) -> (r: Option<SaveFile>)
        ensures
            match parse_record(text@) {
                Some((name, seed, version, time, avatar)) => r matches Some(f) && f.path@ == path@
                    && f.name@ == name && f.seed@ == seed && f.version@ == version && f.time == time
                    && f.avatar_data@ == avatar,
                None => r is None,
            },
    {
        let mut lines = first_lines(text, 5);
        if lines.len() < 4 {
            return None;
        }
        let avatar_data = if lines.len() > 4 {
            lines.pop().unwrap()
        } else {
            String::new()
        };
        let time_line = lines.pop().unwrap();
        let version = lines.pop().unwrap();
        let seed = lines.pop().unwrap();
        let name = lines.pop().unwrap();
        if name.unicode_len() == 0 || seed.unicode_len() == 0 || version.unicode_len() == 0 {
            return None;
        }
        let time = match read_u64(time_line.as_str()) {
            Some(t) => t,
            None => return None,
        };
        Some(SaveFile { path: String::from_str(path), version, time, name, seed, avatar_data })
    }
}

} // verus!
