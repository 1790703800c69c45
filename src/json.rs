use vstd::prelude::*;

verus! {

/// The character of a hexadecimal digit, in lower case.
pub open spec fn hex_char(d: nat) -> char {
    if d < 10 {
        digit_char(d)
    } else if d == 10 {
        'a'
    } else if d == 11 {
        'b'
    } else if d == 12 {
        'c'
    } else if d == 13 {
        'd'
    } else if d == 14 {
        'e'
    } else {
        'f'
    }
}

/// How one character stands inside a JSON string: the quote, the backslash
/// and the control characters are escaped, the short forms where JSON has
/// them; every other character stands for itself.
pub open spec fn escape_char(c: char) -> Seq<char> {
    if c == '"' {
        seq!['\\', '"']
    } else if c == '\\' {
        seq!['\\', '\\']
    } else if c == '\x08' {
        seq!['\\', 'b']
    } else if c == '\x0c' {
        seq!['\\', 'f']
    } else if c == '\n' {
        seq!['\\', 'n']
    } else if c == '\r' {
        seq!['\\', 'r']
    } else if c == '\t' {
        seq!['\\', 't']
    } else if (c as u32) < 32 {
        seq!['\\', 'u', '0', '0', hex_char((c as u32 / 16) as nat), hex_char((c as u32 % 16) as nat)]
    } else {
        seq![c]
    }
}

/// The escaped contents of a JSON string holding `s`.
pub open spec fn escaped(s: Seq<char>) -> Seq<char>
    decreases s.len(),
{
    if s.len() == 0 {
        Seq::empty()
    } else {
        escaped(s.drop_last()) + escape_char(s.last())
    }
}

/// The JSON string holding `s`: quoted and escaped.
pub open spec fn json_text_of(s: Seq<char>) -> Seq<char> {
    seq!['"'] + escaped(s) + seq!['"']
}

/// The members of the JSON object that `text` holds, each with its string,
/// or `None` for a member that holds no string; `None` where `text` is not
/// one JSON object.
pub uninterp spec fn object_members(text: Seq<char>) -> Option<
    Seq<(Seq<char>, Option<Seq<char>>)>,
>;

/// The character of a six-bit value in the standard base64 alphabet.
pub open spec fn base64_char(v: int) -> char {
    "ABCDEFGHIJKLMNOPQRSTUVWXYZabcdefghijklmnopqrstuvwxyz0123456789+/"@[v]
}

/// The standard base64 encoding, with padding, of `bytes`: each group of
/// three bytes gives four characters; a last group of one or two bytes is
/// padded with `=` to four.
pub open spec fn base64_of(bytes: Seq<u8>) -> Seq<char>
    decreases bytes.len(),
{
    if bytes.len() == 0 {
        Seq::empty()
    } else if bytes.len() == 1 {
        let a = bytes[0] as int;
        seq![base64_char(a / 4), base64_char((a % 4) * 16), '=', '=']
    } else if bytes.len() == 2 {
        let a = bytes[0] as int;
        let b = bytes[1] as int;
        seq![base64_char(a / 4), base64_char((a % 4) * 16 + b / 16), base64_char((b % 16) * 4), '=']
    } else {
        let a = bytes[0] as int;
        let b = bytes[1] as int;
        let c = bytes[2] as int;
        seq![
            base64_char(a / 4),
            base64_char((a % 4) * 16 + b / 16),
            base64_char((b % 16) * 4 + c / 64),
            base64_char(c % 64),
        ] + base64_of(bytes.subrange(3, bytes.len() as int))
    }
}

/// The character of a decimal digit.
pub open spec fn digit_char(d: nat) -> char {
    if d == 0 {
        '0'
    } else if d == 1 {
        '1'
    } else if d == 2 {
        '2'
    } else if d == 3 {
        '3'
    } else if d == 4 {
        '4'
    } else if d == 5 {
        '5'
    } else if d == 6 {
        '6'
    } else if d == 7 {
        '7'
    } else if d == 8 {
        '8'
    } else {
        '9'
    }
}

/// The shortest decimal form of `n`.
pub open spec fn decimal(n: nat) -> Seq<char>
    decreases n,
{
    if n < 10 {
        seq![digit_char(n)]
    } else {
        decimal(n / 10).push(digit_char(n % 10))
    }
}

/// The views of a sequence of string pairs.
pub open spec fn pairs_view(s: Seq<(String, String)>) -> Seq<(Seq<char>, Seq<char>)> {
    s.map_values(|p: (String, String)| (p.0@, p.1@))
}

/// The view of an optional string.
pub open spec fn opt_view(o: Option<String>) -> Option<Seq<char>> {
    match o {
        Some(s) => Some(s@),
        None => None,
    }
}

/// The views of decoded members.
pub open spec fn members_view(s: Seq<(String, Option<String>)>) -> Seq<
    (Seq<char>, Option<Seq<char>>),
> {
    s.map_values(|p: (String, Option<String>)| (p.0@, opt_view(p.1)))
}

/// One member of a JSON object: the encoded key, a colon, the value's text.
pub open spec fn member_text(key: Seq<char>, value: Seq<char>) -> Seq<char> {
    json_text_of(key) + seq![':'] + value
}

/// The members of a JSON object, in order, separated by commas; each pair
/// holds a key and the JSON text of its value.
pub open spec fn members_text(f: Seq<(Seq<char>, Seq<char>)>) -> Seq<char>
    decreases f.len(),
{
    if f.len() == 0 {
        Seq::empty()
    } else if f.len() == 1 {
        member_text(f[0].0, f[0].1)
    } else {
        members_text(f.drop_last()) + seq![','] + member_text(f.last().0, f.last().1)
    }
}

/// The compact JSON object with the members `f`, in order.
pub open spec fn object_text(f: Seq<(Seq<char>, Seq<char>)>) -> Seq<char> {
    seq!['{'] + members_text(f) + seq!['}']
}

/// Relies on serde_json's `Display` for `Value::String`: a quote, each
/// character escaped by serde_json's table (the quote, the backslash, the
/// short forms `\b \f \n \r \t`, `\u00xx` in lower-case hex for the other
/// characters below 0x20), and a closing quote.
#[verifier::external_body]
pub(crate) fn json_string(s: &str) -> (r: String)
    ensures
        r@ == json_text_of(s@),
{
    serde_json::Value::String(s.to_string()).to_string()
}

/// Relies on serde_json's `Display` for a number built from a `u32`: it
/// writes the integer in decimal with no sign, no leading zero and no fraction.
#[verifier::external_body]
pub(crate) fn json_number(n: u32) -> (r: String)
    ensures
        r@ == decimal(n as nat),
{
    serde_json::Value::from(n).to_string()
}

/// Relies on serde_json's `from_str` into a map from strings to values: it
/// fails unless the text is one JSON object. Each member comes back with its
/// string, or `None` where it holds another kind of value.
#[verifier::external_body]
pub(crate) fn decode_object(text: &str) -> (r: Option<Vec<(String, Option<String>)>>)
    ensures
        match r {
            None => object_members(text@) is None,
            Some(v) => object_members(text@) == Some(members_view(v@)),
        },
{
    let m = serde_json::from_str::<std::collections::BTreeMap<String, serde_json::Value>>(text).ok()?;
    Some(m.into_iter().map(|(k, v)| (k, match v {
        serde_json::Value::String(s) => Some(s),
        serde_json::Value::Null => None,
        serde_json::Value::Bool(_) => None,
        serde_json::Value::Number(_) => None,
        serde_json::Value::Array(_) => None,
        serde_json::Value::Object(_) => None,
    })).collect())
}

/// Relies on base64's `encode`: the standard alphabet, with padding, three
/// bytes to four characters.
#[verifier::external_body]
pub(crate) fn base64_encode(bytes: &[u8]) -> (r: String)
    ensures
        r@ == base64_of(bytes@),
{
    base64::encode(bytes)
}

/// Writes the compact JSON object whose members are `fields`, in order: each
/// pair holds a key, which is encoded here, and the JSON text of its value.
pub fn encode_object(fields: &Vec<(String, String)>) -> (r: String)
    ensures
        r@ == object_text(pairs_view(fields@)),
{
    let ghost s = pairs_view(fields@);
    let mut out = String::from_str("{");
    proof {
        reveal_strlit("{");
        assert(s.subrange(0, 0) =~= Seq::<(Seq<char>, Seq<char>)>::empty());
        assert(out@ =~= seq!['{'] + members_text(s.subrange(0, 0)));
    }
    let mut i: usize = 0;
    while i < fields.len()
        invariant
            0 <= i <= fields.len(),
            s == pairs_view(fields@),
            out@ == seq!['{'] + members_text(s.subrange(0, i as int)),
        decreases fields.len() - i,
    {
        if i > 0 {
            out.append(",");
        }
        let key = json_string(fields[i].0.as_str());
        out.append(key.as_str());
        out.append(":");
        out.append(fields[i].1.as_str());
        proof {
            reveal_strlit(",");
            reveal_strlit(":");
            let t = s.subrange(0, i + 1);
            assert(t.drop_last() =~= s.subrange(0, i as int));
            assert(t.last() == s[i as int]);
            assert(out@ =~= seq!['{'] + members_text(t));
        }
        i += 1;
    }
    out.append("}");
    proof {
        reveal_strlit("}");
        assert(s.subrange(0, fields.len() as int) =~= s);
        assert(out@ =~= object_text(s));
    }
    out
}

/// The escaped form of a character, followed by anything, determines the
/// character and what follows.
pub proof fn lemma_escape_char_prefix(x: char, y: char, t1: Seq<char>, t2: Seq<char>)
    requires
        escape_char(x) + t1 == escape_char(y) + t2,
    ensures
        x == y,
        t1 == t2,
{
    let a = escape_char(x) + t1;
    let b = escape_char(y) + t2;
    assert(a[0] == b[0]);
    if escape_char(x).len() > 1 && escape_char(y).len() > 1 {
        assert(a[1] == b[1]);
    }
    if escape_char(x).len() == 6 && escape_char(y).len() == 6 {
        assert(a[4] == b[4]);
        assert(a[5] == b[5]);
        let cx = x as u32;
        let cy = y as u32;
        assert(cx / 16 == cy / 16);
        assert(cx % 16 == cy % 16);
        assert(cx == cy);
    }
    assert(escape_char(x) == escape_char(y));
    assert(t1 =~= a.subrange(escape_char(x).len() as int, a.len() as int));
    assert(t2 =~= b.subrange(escape_char(y).len() as int, b.len() as int));
}

/// Escaping works character by character from the front, too.
pub proof fn lemma_escaped_front(s: Seq<char>)
    requires
        s.len() > 0,
    ensures
        escaped(s) == escape_char(s[0]) + escaped(s.drop_first()),
    decreases s.len(),
{
    if s.len() > 1 {
        lemma_escaped_front(s.drop_last());
        assert(s.drop_last()[0] == s[0]);
        assert(s.drop_last().drop_first() =~= s.drop_first().drop_last());
        assert(s.drop_first().last() == s.last());
        assert(escaped(s.drop_first()) == escaped(s.drop_first().drop_last()) + escape_char(
            s.drop_first().last(),
        ));
        assert(escaped(s) =~= escape_char(s[0]) + escaped(s.drop_first()));
    } else {
        assert(escaped(s.drop_last()) == Seq::<char>::empty());
        assert(escaped(s.drop_first()) == Seq::<char>::empty());
        assert(s.last() == s[0]);
        assert(escaped(s) =~= escape_char(s[0]) + escaped(s.drop_first()));
    }
}

/// The escaped contents of a string, closed by a quote and followed by
/// anything, determine the string and what follows.
pub proof fn lemma_escaped_prefix(a: Seq<char>, b: Seq<char>, r1: Seq<char>, r2: Seq<char>)
    requires
        escaped(a) + seq!['"'] + r1 == escaped(b) + seq!['"'] + r2,
    ensures
        a == b,
        r1 == r2,
    decreases a.len(),
{
    let l = escaped(a) + seq!['"'] + r1;
    let m = escaped(b) + seq!['"'] + r2;
    if a.len() == 0 {
        if b.len() > 0 {
            lemma_escaped_front(b);
            assert(m[0] == escape_char(b[0])[0]);
            assert(l[0] == '"');
        }
        assert(r1 =~= l.subrange(1, l.len() as int));
        assert(r2 =~= m.subrange(1, m.len() as int));
    } else {
        lemma_escaped_front(a);
        if b.len() == 0 {
            assert(l[0] == escape_char(a[0])[0]);
            assert(m[0] == '"');
        } else {
            lemma_escaped_front(b);
            let ta = escaped(a.drop_first()) + seq!['"'] + r1;
            let tb = escaped(b.drop_first()) + seq!['"'] + r2;
            assert(l =~= escape_char(a[0]) + ta);
            assert(m =~= escape_char(b[0]) + tb);
            lemma_escape_char_prefix(a[0], b[0], ta, tb);
            lemma_escaped_prefix(a.drop_first(), b.drop_first(), r1, r2);
            assert(a =~= seq![a[0]] + a.drop_first());
            assert(b =~= seq![b[0]] + b.drop_first());
        }
    }
}

/// A JSON string followed by anything determines the string and what
/// follows; in particular, distinct strings are written differently.
pub proof fn lemma_json_text_prefix(a: Seq<char>, b: Seq<char>, r1: Seq<char>, r2: Seq<char>)
    requires
        json_text_of(a) + r1 == json_text_of(b) + r2,
    ensures
        a == b,
        r1 == r2,
{
    let l = json_text_of(a) + r1;
    let m = json_text_of(b) + r2;
    assert(l.drop_first() =~= escaped(a) + seq!['"'] + r1);
    assert(m.drop_first() =~= escaped(b) + seq!['"'] + r2);
    lemma_escaped_prefix(a, b, r1, r2);
}

/// Whether `c` is a decimal digit.
pub open spec fn is_digit(c: char) -> bool {
    '0' <= c && c <= '9'
}

/// The decimal form of a number is made of digits, at least one.
pub proof fn lemma_decimal_digits(n: nat)
    ensures
        decimal(n).len() >= 1,
        n < 10 <==> decimal(n).len() == 1,
        forall|i: int| 0 <= i < decimal(n).len() ==> is_digit(#[trigger] decimal(n)[i]),
    decreases n,
{
    if n >= 10 {
        lemma_decimal_digits(n / 10);
    }
}

/// Distinct digits have distinct characters.
proof fn lemma_digit_char_injective(x: nat, y: nat)
    requires
        x < 10,
        y < 10,
        digit_char(x) == digit_char(y),
    ensures
        x == y,
{
}

/// Distinct numbers have distinct decimal forms.
pub proof fn lemma_decimal_injective(a: nat, b: nat)
    requires
        decimal(a) == decimal(b),
    ensures
        a == b,
    decreases a,
{
    lemma_decimal_digits(a);
    lemma_decimal_digits(b);
    if a >= 10 && b >= 10 {
        assert(decimal(a).last() == digit_char(a % 10));
        assert(decimal(b).last() == digit_char(b % 10));
        assert(decimal(a).drop_last() =~= decimal(a / 10));
        assert(decimal(b).drop_last() =~= decimal(b / 10));
        lemma_decimal_injective(a / 10, b / 10);
        lemma_digit_char_injective(a % 10, b % 10);
        assert(a == 10 * (a / 10) + a % 10);
        assert(b == 10 * (b / 10) + b % 10);
    } else if a < 10 && b < 10 {
        assert(decimal(a) == seq![digit_char(a)]);
        assert(decimal(b) == seq![digit_char(b)]);
        assert(seq![digit_char(a)][0] == digit_char(a));
        assert(seq![digit_char(b)][0] == digit_char(b));
        assert(decimal(a)[0] == decimal(b)[0]);
        lemma_digit_char_injective(a, b);
    }
}

/// A decimal form followed by something that does not start with a digit
/// determines the number and what follows.
pub proof fn lemma_decimal_prefix(a: nat, b: nat, r1: Seq<char>, r2: Seq<char>)
    requires
        decimal(a) + r1 == decimal(b) + r2,
        r1.len() > 0,
        r2.len() > 0,
        !is_digit(r1[0]),
        !is_digit(r2[0]),
    ensures
        a == b,
        r1 == r2,
{
    lemma_decimal_digits(a);
    lemma_decimal_digits(b);
    let l = decimal(a) + r1;
    let da = decimal(a).len();
    let db = decimal(b).len();
    if da < db {
        assert(l[da as int] == r1[0]);
        assert(l[da as int] == decimal(b)[da as int]);
    } else if db < da {
        assert(l[db as int] == r2[0]);
        assert(l[db as int] == decimal(a)[db as int]);
    }
    assert(decimal(a) =~= l.subrange(0, da as int));
    assert(decimal(b) =~= l.subrange(0, db as int));
    assert(r1 =~= l.subrange(da as int, l.len() as int));
    assert(r2 =~= l.subrange(db as int, l.len() as int));
    lemma_decimal_injective(a, b);
}

} // verus!
