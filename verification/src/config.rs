//! Server configuration: the bind address and the list of permitted charger
//! serial numbers, both taken from values the caller has read from the
//! process environment.

use vstd::prelude::*;
use vstd::string::*;

verus! {

/// Server address/port configuration.
#[derive(Debug, Clone)]
pub struct ServerConfig {
    pub addr: String,
    pub port: String,
}

/// Why a `ServerConfig` could not be built.
#[derive(Debug, Clone, Copy, PartialEq, Eq, Structural)]
pub enum ConfigError {
    /// `ADDR` is not set.
    MissingAddr,
    /// `PORT` is not set.
    MissingPort,
}

impl ServerConfig {
    /// The text `host:port` for an address and a port.
    pub open spec fn socket_addr_text(addr: Seq<char>, port: Seq<char>) -> Seq<char> {
        addr + seq![':'] + port
    }

    /// Build a `ServerConfig` from the values of `ADDR` and `PORT`, each
    /// `None` when the variable is not set. Both are required; `ADDR` is
    /// looked at first.
    pub fn from_env(addr: Option<String>, port: Option<String>) -> (r: Result<
        ServerConfig,
        ConfigError,
    >)
        ensures
            addr is None ==> r == Err::<ServerConfig, ConfigError>(ConfigError::MissingAddr),
            addr is Some && port is None ==> r == Err::<ServerConfig, ConfigError>(
                ConfigError::MissingPort,
            ),
            addr is Some && port is Some ==> r == Ok::<ServerConfig, ConfigError>(
                (ServerConfig { addr: addr->0, port: port->0 }),
            ),
    {
        match addr {
            None => Err(ConfigError::MissingAddr),
            Some(addr) => match port {
                None => Err(ConfigError::MissingPort),
                Some(port) => Ok(ServerConfig { addr, port }),
            },
        }
    }

    /// Combined host:port string.
    pub fn socket_addr(&self) -> (r: String)
        ensures
            r@ == Self::socket_addr_text(self.addr@, self.port@),
    {
        proof {
            reveal_strlit(":");
            assert(":"@ =~= seq![':']);
        }
        let host: String = self.addr.clone();
        let with_colon: String = host.concat(":");
        with_colon.concat(self.port.as_str())
    }
}

/// The texts of a list of strings.
pub open spec fn texts(items: Seq<String>) -> Seq<Seq<char>> {
    Seq::new(items.len(), |i: int| items[i]@)
}

/// Whether a character is white space: a character with the Unicode
/// property `White_Space`.
pub open spec fn is_whitespace(c: char) -> bool {
    let n = c as u32;
    ||| 0x09 <= n <= 0x0d
    ||| n == 0x20
    ||| n == 0x85
    ||| n == 0xa0
    ||| n == 0x1680
    ||| 0x2000 <= n <= 0x200a
    ||| n == 0x2028
    ||| n == 0x2029
    ||| n == 0x202f
    ||| n == 0x205f
    ||| n == 0x3000
}

/// The number of white-space characters that `s` starts with.
pub open spec fn leading_whitespace(s: Seq<char>) -> nat
    decreases s.len(),
{
    if s.len() > 0 && is_whitespace(s[0]) {
        1 + leading_whitespace(s.drop_first())
    } else {
        0
    }
}

/// The number of white-space characters that `s` ends with.
pub open spec fn trailing_whitespace(s: Seq<char>) -> nat
    decreases s.len(),
{
    if s.len() > 0 && is_whitespace(s.last()) {
        1 + trailing_whitespace(s.drop_last())
    } else {
        0
    }
}

/// `s` without the white space at its two ends.
pub open spec fn trimmed(s: Seq<char>) -> Seq<char> {
    let from = leading_whitespace(s);
    if from == s.len() {
        Seq::empty()
    } else {
        s.subrange(from as int, s.len() - trailing_whitespace(s))
    }
}

/// The number of characters before the first comma of `s`, or the length
/// of `s` where it has none.
pub open spec fn first_comma(s: Seq<char>) -> nat
    decreases s.len(),
{
    if s.len() == 0 || s[0] == ',' {
        0
    } else {
        1 + first_comma(s.drop_first())
    }
}

/// The serial numbers that a comma-separated list names: its entries in
/// their order, each trimmed, the empty ones dropped.
pub open spec fn serial_numbers(raw: Seq<char>) -> Seq<Seq<char>>
    decreases raw.len(),
{
    let k = first_comma(raw);
    let head = trimmed(raw.subrange(0, k as int));
    let rest = if k < raw.len() {
        serial_numbers(raw.subrange(k as int + 1, raw.len() as int))
    } else {
        Seq::empty()
    };
    if head.len() == 0 {
        rest
    } else {
        seq![head] + rest
    }
}

/// The first comma of `s` stands at `k` where no comma stands before `k`
/// and `k` is the end of `s` or holds a comma.
proof fn lemma_first_comma_at(s: Seq<char>, k: int)
    requires
        0 <= k <= s.len(),
        forall|i: int| 0 <= i < k ==> s[i] != ',',
        k == s.len() || s[k] == ',',
    ensures
        first_comma(s) == k,
    decreases k,
{
    if k > 0 {
        let t = s.drop_first();
        assert forall|i: int| 0 <= i < k - 1 implies t[i] != ',' by {
            assert(t[i] == s[i + 1]);
        }
        lemma_first_comma_at(t, k - 1);
    }
}

proof fn lemma_leading_whitespace_at(s: Seq<char>, k: int)
    requires
        0 <= k <= s.len(),
        forall|i: int| 0 <= i < k ==> is_whitespace(s[i]),
        k == s.len() || !is_whitespace(s[k]),
    ensures
        leading_whitespace(s) == k,
    decreases k,
{
    if k > 0 {
        let t = s.drop_first();
        assert forall|i: int| 0 <= i < k - 1 implies is_whitespace(t[i]) by {
            assert(t[i] == s[i + 1]);
        }
        lemma_leading_whitespace_at(t, k - 1);
    }
}

proof fn lemma_trailing_whitespace_at(s: Seq<char>, k: int)
    requires
        0 <= k <= s.len(),
        forall|i: int| k <= i < s.len() ==> is_whitespace(s[i]),
        k == 0 || !is_whitespace(s[k - 1]),
    ensures
        trailing_whitespace(s) == s.len() - k,
    decreases s.len() - k,
{
    if k < s.len() {
        let t = s.drop_last();
        assert forall|i: int| k <= i < t.len() implies is_whitespace(t[i]) by {
            assert(t[i] == s[i]);
        }
        if k > 0 {
            assert(t[k - 1] == s[k - 1]);
        }
        lemma_trailing_whitespace_at(t, k);
    }
}

/// The white space that `s` starts with ends at its first character that
/// is none.
proof fn lemma_leading_whitespace(s: Seq<char>)
    ensures
        leading_whitespace(s) <= s.len(),
        forall|i: int| 0 <= i < leading_whitespace(s) ==> is_whitespace(s[i]),
        leading_whitespace(s) < s.len() ==> !is_whitespace(s[leading_whitespace(s) as int]),
    decreases s.len(),
{
    if s.len() > 0 && is_whitespace(s[0]) {
        let t = s.drop_first();
        lemma_leading_whitespace(t);
        assert forall|i: int| 0 <= i < leading_whitespace(s) implies is_whitespace(s[i]) by {
            if i > 0 {
                assert(s[i] == t[i - 1]);
            }
        }
        if leading_whitespace(s) < s.len() {
            assert(s[leading_whitespace(s) as int] == t[leading_whitespace(t) as int]);
        }
    }
}

/// The white space that `s` ends with starts after its last character that
/// is none.
proof fn lemma_trailing_whitespace(s: Seq<char>)
    ensures
        trailing_whitespace(s) <= s.len(),
        forall|i: int| s.len() - trailing_whitespace(s) <= i < s.len() ==> is_whitespace(s[i]),
        trailing_whitespace(s) < s.len() ==> !is_whitespace(
            s[s.len() - trailing_whitespace(s) - 1],
        ),
    decreases s.len(),
{
    if s.len() > 0 && is_whitespace(s.last()) {
        let t = s.drop_last();
        lemma_trailing_whitespace(t);
        assert forall|i: int| s.len() - trailing_whitespace(s) <= i < s.len() implies is_whitespace(
            s[i],
        ) by {
            if i < s.len() - 1 {
                assert(s[i] == t[i]);
            }
        }
        if trailing_whitespace(s) < s.len() {
            assert(s[s.len() - trailing_whitespace(s) - 1] == t[t.len() - trailing_whitespace(t)
                - 1]);
        }
    }
}

/// What trimming leaves is a stretch of the text that neither starts nor
/// ends with white space.
pub proof fn lemma_trimmed(s: Seq<char>)
    ensures
        exists|from: int, to: int|
            0 <= from <= to <= s.len() && #[trigger] s.subrange(from, to) == trimmed(s),
        trimmed(s).len() > 0 ==> !is_whitespace(trimmed(s).first()) && !is_whitespace(
            trimmed(s).last(),
        ),
{
    lemma_leading_whitespace(s);
    lemma_trailing_whitespace(s);
    let from = leading_whitespace(s) as int;
    if from == s.len() {
        assert(s.subrange(0, 0) =~= trimmed(s));
    } else {
        let to = s.len() - trailing_whitespace(s);
        if to <= from {
            assert(is_whitespace(s[from]));
        }
        assert(s.subrange(from, to) == trimmed(s));
        assert(trimmed(s).first() == s[from]);
        assert(trimmed(s).last() == s[to - 1]);
    }
}

/// No comma stands before the first comma.
proof fn lemma_before_first_comma(s: Seq<char>)
    ensures
        first_comma(s) <= s.len(),
        forall|i: int| 0 <= i < first_comma(s) ==> s[i] != ',',
        first_comma(s) < s.len() ==> s[first_comma(s) as int] == ',',
    decreases s.len(),
{
    if s.len() > 0 && s[0] != ',' {
        let t = s.drop_first();
        lemma_before_first_comma(t);
        assert forall|i: int| 0 <= i < first_comma(s) implies s[i] != ',' by {
            if i > 0 {
                assert(s[i] == t[i - 1]);
            }
        }
        if first_comma(s) < s.len() {
            assert(s[first_comma(s) as int] == t[first_comma(t) as int]);
        }
    }
}

/// Every serial number of a list is an entry of the list as configured:
/// it is not empty, holds no comma, and neither starts nor ends with white
/// space.
pub proof fn lemma_serial_numbers_are_entries(raw: Seq<char>)
    ensures
        forall|k: int|
            0 <= k < serial_numbers(raw).len() ==> {
                let entry = #[trigger] serial_numbers(raw)[k];
                &&& entry.len() > 0
                &&& !entry.contains(',')
                &&& !is_whitespace(entry.first())
                &&& !is_whitespace(entry.last())
            },
    decreases raw.len(),
{
    lemma_before_first_comma(raw);
    let k = first_comma(raw) as int;
    let field = raw.subrange(0, k);
    let head = trimmed(field);
    lemma_trimmed(field);
    let (from, to) = choose|from: int, to: int|
        0 <= from <= to <= field.len() && #[trigger] field.subrange(from, to) == head;
    assert forall|i: int| 0 <= i < head.len() implies head[i] != ',' by {
        assert(head[i] == field[from + i]);
        assert(field[from + i] == raw[from + i]);
    }
    let rest = if k < raw.len() {
        serial_numbers(raw.subrange(k + 1, raw.len() as int))
    } else {
        Seq::<Seq<char>>::empty()
    };
    if k < raw.len() {
        lemma_serial_numbers_are_entries(raw.subrange(k + 1, raw.len() as int));
    }
    assert forall|n: int| 0 <= n < serial_numbers(raw).len() implies {
        let entry = #[trigger] serial_numbers(raw)[n];
        &&& entry.len() > 0
        &&& !entry.contains(',')
        &&& !is_whitespace(entry.first())
        &&& !is_whitespace(entry.last())
    } by {
        if head.len() == 0 {
            assert(serial_numbers(raw)[n] == rest[n]);
        } else if n == 0 {
            assert(serial_numbers(raw)[n] == head);
        } else {
            assert(serial_numbers(raw)[n] == rest[n - 1]);
        }
    }
}

/// A text without a comma that is not all white space names exactly one
/// serial number: itself, trimmed.
pub proof fn lemma_single_serial_number(raw: Seq<char>)
    requires
        !raw.contains(','),
    ensures
        serial_numbers(raw) == if trimmed(raw).len() == 0 {
            Seq::<Seq<char>>::empty()
        } else {
            seq![trimmed(raw)]
        },
{
    assert forall|i: int| 0 <= i < raw.len() implies raw[i] != ',' by {
        if raw[i] == ',' {
            assert(raw.contains(','));
        }
    }
    lemma_first_comma_at(raw, raw.len() as int);
    assert(raw.subrange(0, raw.len() as int) =~= raw);
    assert(seq![trimmed(raw)] + Seq::<Seq<char>>::empty() =~= seq![trimmed(raw)]);
}

/// Whether a character is white space.
pub fn is_whitespace_char(c: char) -> (r: bool)
    ensures
        r == is_whitespace(c),
{
    let n: u32 = c as u32;
    (0x09 <= n && n <= 0x0d) || n == 0x20 || n == 0x85 || n == 0xa0 || n == 0x1680 || (0x2000 <= n
        && n <= 0x200a) || n == 0x2028 || n == 0x2029 || n == 0x202f || n == 0x205f || n == 0x3000
}

/// List of allowed charger serial numbers parsed from the value of
/// `ALLOWED_SERIAL_NUMBERS`, the empty text standing for a variable that
/// is not set. Comma-separated; white space round an entry is trimmed and
/// empty entries are dropped. An empty list disables the admission test.
pub fn allowed_serial_numbers(raw: &str) -> (r: Vec<String>)
    ensures
        texts(r@) == serial_numbers(raw@),
{
    let n: usize = raw.unicode_len();
    let mut out: Vec<String> = Vec::new();
    let mut start: usize = 0;
    let mut done: bool = false;
    proof {
        assert(raw@.subrange(0, n as int) =~= raw@);
        assert(texts(out@) + serial_numbers(raw@) =~= serial_numbers(raw@));
    }
    while !done
        invariant
            n == raw@.len(),
            start <= n,
            !done ==> serial_numbers(raw@) == texts(out@) + serial_numbers(
                raw@.subrange(start as int, n as int),
            ),
            done ==> serial_numbers(raw@) == texts(out@),
        decreases n - start + (if done { 0int } else { 1int }),
    {
        let ghost rest = raw@.subrange(start as int, n as int);
        let mut end: usize = start;
        while end < n && raw.get_char(end) != ','
            invariant
                n == raw@.len(),
                start <= end <= n,
                forall|i: int| start <= i < end ==> raw@[i] != ',',
            decreases n - end,
        {
            end = end + 1;
        }
        let ghost field = raw@.subrange(start as int, end as int);
        proof {
            assert forall|i: int| 0 <= i < end - start implies rest[i] != ',' by {
                assert(rest[i] == raw@[start + i]);
            }
            lemma_first_comma_at(rest, end - start);
            assert(rest.subrange(0, end - start) =~= field);
        }
        let mut from: usize = start;
        while from < end && is_whitespace_char(raw.get_char(from))
            invariant
                n == raw@.len(),
                start <= from <= end <= n,
                forall|i: int| start <= i < from ==> is_whitespace(raw@[i]),
            decreases end - from,
        {
            from = from + 1;
        }
        let mut to: usize = end;
        while to > from && is_whitespace_char(raw.get_char(to - 1))
            invariant
                n == raw@.len(),
                start <= from <= to <= end <= n,
                forall|i: int| to <= i < end ==> is_whitespace(raw@[i]),
            decreases to - from,
        {
            to = to - 1;
        }
        proof {
            assert forall|i: int| 0 <= i < from - start implies is_whitespace(field[i]) by {
                assert(field[i] == raw@[start + i]);
            }
            lemma_leading_whitespace_at(field, from - start);
            if from < end {
                assert(to > from);
                assert forall|i: int| to - start <= i < field.len() implies is_whitespace(
                    field[i],
                ) by {
                    assert(field[i] == raw@[start + i]);
                }
                assert(field[to - start - 1] == raw@[to - 1]);
                lemma_trailing_whitespace_at(field, to - start);
                assert(trimmed(field) =~= raw@.subrange(from as int, to as int));
            } else {
                assert(trimmed(field) =~= Seq::<char>::empty());
                assert(to == from);
            }
        }
        let ghost before = out@;
        if from < to {
            let entry: String = raw.substring_char(from, to).to_string();
            out.push(entry);
            proof {
                assert(texts(out@) =~= texts(before) + seq![trimmed(field)]);
            }
        }
        proof {
            if end < n {
                assert(rest.subrange(end - start + 1, rest.len() as int) =~= raw@.subrange(
                    end + 1,
                    n as int,
                ));
            }
            let tail = if end < n {
                serial_numbers(raw@.subrange(end + 1, n as int))
            } else {
                Seq::<Seq<char>>::empty()
            };
            assert(serial_numbers(rest) == if trimmed(field).len() == 0 {
                tail
            } else {
                seq![trimmed(field)] + tail
            });
            assert(texts(before) + serial_numbers(rest) =~= texts(out@) + tail);
        }
        if end < n {
            start = end + 1;
        } else {
            done = true;
            proof {
                assert(texts(out@) + Seq::<Seq<char>>::empty() =~= texts(out@));
            }
        }
    }
    out
}

} // verus!
