//! Construction of the wire JSON text: string escaping, field lists and
//! object assembly.  The serialized form of a message is specified by
//! `obj_text` over a sequence of `(key, value-text)` pairs; only fields that
//! are present appear in the sequence, so absence means omission (not null).

use vstd::prelude::*;
use vstd::string::StrSliceExecFns;
use vstd::string::StringExecFns;

verus! {

/// The hexadecimal digit character for `n` (lower case).
pub open spec fn hex_digit(n: int) -> char {
    if n == 0 { '0' } else if n == 1 { '1' } else if n == 2 { '2' }
    else if n == 3 { '3' } else if n == 4 { '4' } else if n == 5 { '5' }
    else if n == 6 { '6' } else if n == 7 { '7' } else if n == 8 { '8' }
    else if n == 9 { '9' } else if n == 10 { 'a' } else if n == 11 { 'b' }
    else if n == 12 { 'c' } else if n == 13 { 'd' } else if n == 14 { 'e' }
    else { 'f' }
}

/// JSON escape of a single character: quote and backslash get a backslash
/// escape, the common control characters get their short form, any other
/// control character the `\u00XX` form, and everything else stands as is.
pub open spec fn esc_char(c: char) -> Seq<char> {
    if c == '"' { seq!['\\', '"'] }
    else if c == '\\' { seq!['\\', '\\'] }
    else if c == '\n' { seq!['\\', 'n'] }
    else if c == '\r' { seq!['\\', 'r'] }
    else if c == '\t' { seq!['\\', 't'] }
    else if (c as u32) < 32 {
        seq!['\\', 'u', '0', '0', hex_digit((c as u32) as int / 16), hex_digit((c as u32) as int % 16)]
    }
    else { seq![c] }
}

/// JSON escape of a whole string.
pub open spec fn esc(s: Seq<char>) -> Seq<char>
    decreases s.len(),
{
    if s.len() == 0 {
        Seq::<char>::empty()
    } else {
        esc_char(s[0]) + esc(s.skip(1))
    }
}

/// The JSON text of a string value: quoted and escaped.
pub open spec fn json_str(s: Seq<char>) -> Seq<char> {
    seq!['"'] + esc(s) + seq!['"']
}

/// The JSON text of a boolean value.
pub open spec fn json_bool(b: bool) -> Seq<char> {
    if b { seq!['t', 'r', 'u', 'e'] } else { seq!['f', 'a', 'l', 's', 'e'] }
}

/// One serialized member of a JSON object: quoted key, colon, value text.
pub open spec fn pair_text(p: (Seq<char>, Seq<char>)) -> Seq<char> {
    json_str(p.0) + seq![':'] + p.1
}

/// The members of a JSON object joined with commas.
pub open spec fn join_fields(fs: Seq<(Seq<char>, Seq<char>)>) -> Seq<char>
    decreases fs.len(),
{
    if fs.len() == 0 {
        Seq::<char>::empty()
    } else if fs.len() == 1 {
        pair_text(fs[0])
    } else {
        pair_text(fs[0]) + seq![','] + join_fields(fs.skip(1))
    }
}

/// The JSON text of an object with the given members, in order.
pub open spec fn obj_text(fs: Seq<(Seq<char>, Seq<char>)>) -> Seq<char> {
    seq!['{'] + join_fields(fs) + seq!['}']
}

/// The member list contributed by one optional field: empty when the field
/// is unset, a single `(key, value-text)` pair when it is set.
pub open spec fn opt_field(key: Seq<char>, v: Option<Seq<char>>) -> Seq<(Seq<char>, Seq<char>)> {
    match v {
        Option::None => Seq::<(Seq<char>, Seq<char>)>::empty(),
        Option::Some(t) => seq![(key, t)],
    }
}

/// The value text of the first member with key `k`, if any.
pub open spec fn lookup(fs: Seq<(Seq<char>, Seq<char>)>, k: Seq<char>) -> Option<Seq<char>>
    decreases fs.len(),
{
    if fs.len() == 0 {
        Option::None
    } else if fs[0].0 == k {
        Option::Some(fs[0].1)
    } else {
        lookup(fs.skip(1), k)
    }
}

/// Escaping distributes over concatenation.
pub proof fn lemma_esc_append(a: Seq<char>, b: Seq<char>)
    ensures
        esc(a + b) == esc(a) + esc(b),
    decreases a.len(),
{
    if a.len() == 0 {
        assert(a + b =~= b);
        assert(esc(a) + esc(b) =~= esc(b));
    } else {
        assert((a + b).skip(1) =~= a.skip(1) + b);
        lemma_esc_append(a.skip(1), b);
        assert(esc(a + b) =~= esc(a) + esc(b));
    }
}

/// Extending the escaped prefix by one character.
proof fn lemma_esc_take_succ(s: Seq<char>, i: int)
    requires
        0 <= i < s.len(),
    ensures
        esc(s.take(i + 1)) == esc(s.take(i)) + esc_char(s[i]),
{
    let one = seq![s[i]];
    assert(s.take(i + 1) =~= s.take(i) + one);
    lemma_esc_append(s.take(i), one);
    assert(one.skip(1) =~= Seq::<char>::empty());
    assert(esc(one.skip(1)) == Seq::<char>::empty());
    assert(esc(one) == esc_char(s[i]) + Seq::<char>::empty());
    assert(esc_char(s[i]) + Seq::<char>::empty() =~= esc_char(s[i]));
}

/// Appending one member to an object's member list extends the joined text
/// by a comma (when members precede it) and the member's own text.
pub proof fn lemma_join_push(fs: Seq<(Seq<char>, Seq<char>)>, p: (Seq<char>, Seq<char>))
    ensures
        join_fields(fs.push(p)) == if fs.len() == 0 {
            pair_text(p)
        } else {
            join_fields(fs) + seq![','] + pair_text(p)
        },
    decreases fs.len(),
{
    if fs.len() == 0 {
        assert(fs.push(p)[0] == p);
        assert(join_fields(fs.push(p)) == pair_text(p));
    } else {
        assert(fs.push(p).skip(1) =~= fs.skip(1).push(p));
        lemma_join_push(fs.skip(1), p);
        assert(join_fields(fs.push(p)) =~= join_fields(fs) + seq![','] + pair_text(p));
    }
}

/// Looking a key up in a concatenation: the first list wins when it has
/// the key, else the second decides.
pub proof fn lemma_lookup_append(s1: Seq<(Seq<char>, Seq<char>)>, s2: Seq<(Seq<char>, Seq<char>)>, k: Seq<char>)
    ensures
        lookup(s1 + s2, k) == if lookup(s1, k) is Some {
            lookup(s1, k)
        } else {
            lookup(s2, k)
        },
    decreases s1.len(),
{
    if s1.len() == 0 {
        assert(s1 + s2 =~= s2);
    } else {
        assert((s1 + s2).skip(1) =~= s1.skip(1) + s2);
        lemma_lookup_append(s1.skip(1), s2, k);
    }
}

/// Relies on `String::push`: appends the character to the end of the string.
#[verifier::external_body]
fn push_char(out: &mut String, c: char)
    ensures
        final(out)@ == old(out)@.push(c),
{
    out.push(c);
}

/// The hexadecimal digit character for `n`.
fn hex_char(n: u8) -> (r: char)
    requires
        n < 16,
    ensures
        r == hex_digit(n as int),
{
    match n {
        0 => '0', 1 => '1', 2 => '2', 3 => '3',
        4 => '4', 5 => '5', 6 => '6', 7 => '7',
        8 => '8', 9 => '9', 10 => 'a', 11 => 'b',
        12 => 'c', 13 => 'd', 14 => 'e', _ => 'f',
    }
}

/// Appends the JSON escape of `s` to `out`.
fn append_escaped(out: &mut String, s: &str)
    ensures
        final(out)@ == old(out)@ + esc(s@),
{
    let n: usize = s.unicode_len();
    let mut i: usize = 0;
    proof {
        assert(s@.take(0) =~= Seq::<char>::empty());
        assert(out@ + esc(s@.take(0)) =~= out@);
    }
    while i < n
        invariant
            i <= n,
            n == s@.len(),
            out@ == old(out)@ + esc(s@.take(i as int)),
        decreases n - i,
    {
        let c = s.get_char(i);
        proof {
            lemma_esc_take_succ(s@, i as int);
        }
        if c == '"' {
            out.append("\\\"");
            proof {
                reveal_strlit("\\\"");
                assert("\\\""@ =~= esc_char(c));
            }
        } else if c == '\\' {
            out.append("\\\\");
            proof {
                reveal_strlit("\\\\");
                assert("\\\\"@ =~= esc_char(c));
            }
        } else if c == '\n' {
            out.append("\\n");
            proof {
                reveal_strlit("\\n");
                assert("\\n"@ =~= esc_char(c));
            }
        } else if c == '\r' {
            out.append("\\r");
            proof {
                reveal_strlit("\\r");
                assert("\\r"@ =~= esc_char(c));
            }
        } else if c == '\t' {
            out.append("\\t");
            proof {
                reveal_strlit("\\t");
                assert("\\t"@ =~= esc_char(c));
            }
        } else if (c as u32) < 32 {
            let u: u32 = c as u32;
            out.append("\\u00");
            push_char(out, hex_char((u / 16) as u8));
            push_char(out, hex_char((u % 16) as u8));
            proof {
                reveal_strlit("\\u00");
                assert("\\u00"@.push(hex_digit(u as int / 16)).push(hex_digit(u as int % 16))
                    =~= esc_char(c));
            }
        } else {
            push_char(out, c);
            proof {
                assert(out@ =~= old(out)@ + esc(s@.take(i as int)) + esc_char(c));
            }
        }
        proof {
            assert(out@ =~= old(out)@ + esc(s@.take(i as int + 1)));
        }
        i = i + 1;
    }
    proof {
        assert(s@.take(n as int) =~= s@);
    }
}

/// The JSON text of the string value `s`.
pub fn json_string_of(s: &str) -> (r: String)
    ensures
        r@ == json_str(s@),
{
    let mut out = String::new();
    out.append("\"");
    append_escaped(&mut out, s);
    out.append("\"");
    proof {
        reveal_strlit("\"");
        assert("\""@ =~= seq!['"']);
        assert(out@ =~= json_str(s@));
    }
    out
}

/// The JSON text of the boolean value `b`.
pub fn json_bool_of(b: bool) -> (r: String)
    ensures
        r@ == json_bool(b),
{
    if b {
        let r = String::from_str("true");
        proof {
            reveal_strlit("true");
            assert("true"@ =~= json_bool(true));
        }
        r
    } else {
        let r = String::from_str("false");
        proof {
            reveal_strlit("false");
            assert("false"@ =~= json_bool(false));
        }
        r
    }
}

/// The view of an executable member list as the spec-level one.
pub open spec fn fields_view(v: Seq<(String, String)>) -> Seq<(Seq<char>, Seq<char>)> {
    v.map_values(|p: (String, String)| (p.0@, p.1@))
}

/// The JSON object text with the given members, in order.
pub fn write_obj(fields: &Vec<(String, String)>) -> (r: String)
    ensures
        r@ == obj_text(fields_view(fields@)),
{
    let ghost all = fields_view(fields@);
    let mut out = String::new();
    out.append("{");
    proof {
        reveal_strlit("{");
        assert("{"@ =~= seq!['{']);
        assert(all.take(0) =~= Seq::<(Seq<char>, Seq<char>)>::empty());
        assert(out@ =~= seq!['{'] + join_fields(all.take(0)));
    }
    let n: usize = fields.len();
    let mut i: usize = 0;
    while i < n
        invariant
            i <= n,
            n == fields.len(),
            all == fields_view(fields@),
            out@ == seq!['{'] + join_fields(all.take(i as int)),
        decreases n - i,
    {
        proof {
            assert(all.take(i as int + 1) =~= all.take(i as int).push(all[i as int]));
            lemma_join_push(all.take(i as int), all[i as int]);
        }
        if i > 0 {
            out.append(",");
            proof {
                reveal_strlit(",");
                assert(","@ =~= seq![',']);
            }
        }
        out.append("\"");
        append_escaped(&mut out, fields[i].0.as_str());
        out.append("\":");
        out.append(fields[i].1.as_str());
        proof {
            reveal_strlit("\"");
            reveal_strlit("\":");
            assert("\""@ =~= seq!['"']);
            assert("\":"@ =~= seq!['"', ':']);
            assert(all[i as int] == (fields@[i as int].0@, fields@[i as int].1@));
            assert(pair_text(all[i as int]) =~= seq!['"'] + esc(fields@[i as int].0@) + seq!['"', ':']
                + fields@[i as int].1@);
            assert(out@ =~= seq!['{'] + join_fields(all.take(i as int + 1)));
        }
        i = i + 1;
    }
    out.append("}");
    proof {
        reveal_strlit("}");
        assert("}"@ =~= seq!['}']);
        assert(all.take(n as int) =~= all);
        assert(out@ =~= obj_text(all));
    }
    out
}

/// Pushes the member `(key, value)` when `value` is set; the member list
/// grows exactly by `opt_field` of the field.
pub fn push_opt(fields: &mut Vec<(String, String)>, key: &str, value: Option<String>)
    ensures
        fields_view(final(fields)@) == fields_view(old(fields)@) + opt_field(key@, value.deep_view()),
{
    let ghost before = fields_view(old(fields)@);
    match value {
        Option::None => {
            proof {
                assert(fields_view(fields@) =~= before + opt_field(key@, Option::<Seq<char>>::None));
            }
        },
        Option::Some(s) => {
            let ghost sv = s@;
            let k = String::from_str(key);
            fields.push((k, s));
            proof {
                assert(fields_view(fields@) =~= before + opt_field(key@, Option::Some(sv)));
            }
        },
    }
}

} // verus!
