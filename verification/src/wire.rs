//! The byte format of snapshots: little-endian numbers, length-prefixed
//! strings and lists. Each reader below is the exact mirror of a writer, and
//! the lemmas state that reading what was written gives the value back.

use vstd::prelude::*;

verus! {

/// The four bytes of `x`, least significant first.
pub open spec fn enc_u32(x: u32) -> Seq<u8> {
    seq![
        (x & 0xFF) as u8,
        ((x >> 8) & 0xFF) as u8,
        ((x >> 16) & 0xFF) as u8,
        ((x >> 24) & 0xFF) as u8,
    ]
}

/// The number held in four bytes, least significant first.
pub open spec fn u32_of_bytes(b0: u8, b1: u8, b2: u8, b3: u8) -> u32 {
    (b0 as u32) | ((b1 as u32) << 8) | ((b2 as u32) << 16) | ((b3 as u32) << 24)
}

/// Reads a number from the head of `t`, returning it with the rest of `t`.
pub open spec fn sdec_u32(t: Seq<u8>) -> Option<(u32, Seq<u8>)> {
    if t.len() < 4 {
        None
    } else {
        Some((u32_of_bytes(t[0], t[1], t[2], t[3]), t.skip(4)))
    }
}

/// Reading a written number gives the number back and leaves the rest.
pub proof fn lemma_u32_roundtrip(x: u32, rest: Seq<u8>)
    ensures
        sdec_u32(enc_u32(x) + rest) == Some((x, rest)),
{
    let t = enc_u32(x) + rest;
    assert(u32_of_bytes(
        (x & 0xFF) as u8,
        ((x >> 8) & 0xFF) as u8,
        ((x >> 16) & 0xFF) as u8,
        ((x >> 24) & 0xFF) as u8,
    ) == x) by (bit_vector);
    assert(t.skip(4) =~= rest);
}

/// Appends the four bytes of `x`.
pub fn write_u32(out: &mut Vec<u8>, x: u32)
    ensures
        final(out)@ =~= old(out)@ + enc_u32(x),
{
    let b0: u32 = x & 0xFF;
    let b1: u32 = (x >> 8) & 0xFF;
    let b2: u32 = (x >> 16) & 0xFF;
    let b3: u32 = (x >> 24) & 0xFF;
    assert(x & 0xFF < 256 && (x >> 8) & 0xFF < 256 && (x >> 16) & 0xFF < 256 && (x >> 24) & 0xFF
        < 256) by (bit_vector);
    out.push(b0 as u8);
    out.push(b1 as u8);
    out.push(b2 as u8);
    out.push(b3 as u8);
}

/// Reads four bytes as a number, advancing `pos`.
pub fn read_u32(buf: &[u8], pos: &mut usize) -> (r: Option<u32>)
    requires
        *old(pos) <= buf@.len(),
    ensures
        match sdec_u32(buf@.skip(*old(pos) as int)) {
            Some((x, rest)) => r == Some(x) && *final(pos) == *old(pos) + 4 && buf@.skip(
                *final(pos) as int,
            ) == rest,
            None => r is None && *final(pos) == *old(pos),
        },
{
    let n = buf.len();
    if n - *pos < 4 {
        return None;
    }
    let b0 = buf[*pos];
    let b1 = buf[*pos + 1];
    let b2 = buf[*pos + 2];
    let b3 = buf[*pos + 3];
    let x: u32 = (b0 as u32) | ((b1 as u32) << 8) | ((b2 as u32) << 16) | ((b3 as u32) << 24);
    proof {
        let t = buf@.skip(*pos as int);
        assert(t[0] == b0 && t[1] == b1 && t[2] == b2 && t[3] == b3);
        assert(buf@.skip(*pos + 4 as int) =~= t.skip(4));
    }
    *pos = *pos + 4;
    Some(x)
}

/// The bytes of the characters of `s`, each as its scalar value.
pub open spec fn enc_chars(s: Seq<char>) -> Seq<u8>
    decreases s.len(),
{
    if s.len() == 0 {
        Seq::empty()
    } else {
        enc_u32(s[0] as u32) + enc_chars(s.drop_first())
    }
}

/// The bytes of a string: its length, then its characters.
pub open spec fn enc_str(s: Seq<char>) -> Seq<u8> {
    enc_u32(s.len() as u32) + enc_chars(s)
}

/// Whether `x` is a Unicode scalar value.
pub open spec fn valid_scalar(x: u32) -> bool {
    x < 0xD800 || (0xE000 <= x && x <= 0x10FFFF)
}

/// Reads `n` characters from the head of `t`.
pub open spec fn sdec_chars(t: Seq<u8>, n: nat) -> Option<(Seq<char>, Seq<u8>)>
    decreases n,
{
    if n == 0 {
        Some((Seq::empty(), t))
    } else {
        match sdec_u32(t) {
            Some((x, rest)) => if valid_scalar(x) {
                match sdec_chars(rest, (n - 1) as nat) {
                    Some((s, rest2)) => Some((seq![x as char] + s, rest2)),
                    None => None,
                }
            } else {
                None
            },
            None => None,
        }
    }
}

/// Reads a string from the head of `t`.
pub open spec fn sdec_str(t: Seq<u8>) -> Option<(Seq<char>, Seq<u8>)> {
    match sdec_u32(t) {
        Some((n, rest)) => sdec_chars(rest, n as nat),
        None => None,
    }
}

/// Reading written characters gives them back and leaves the rest.
#[verifier::rlimit(50)]
pub proof fn lemma_chars_roundtrip(s: Seq<char>, rest: Seq<u8>)
    ensures
        sdec_chars(enc_chars(s) + rest, s.len()) == Some((s, rest)),
    decreases s.len(),
{
    if s.len() == 0 {
        assert(enc_chars(s) + rest =~= rest);
    } else {
        let c = s[0];
        let x = c as u32;
        lemma_u32_roundtrip(x, enc_chars(s.drop_first()) + rest);
        assert(enc_chars(s) + rest =~= enc_u32(x) + (enc_chars(s.drop_first()) + rest));
        lemma_chars_roundtrip(s.drop_first(), rest);
        vstd::utf8::char_is_scalar(c);
        vstd::utf8::char_u32_cast(c, x);
        assert(valid_scalar(x));
        assert(seq![x as char] + s.drop_first() =~= s);
    }
}

/// Reading a written string gives the string back and leaves the rest.
pub proof fn lemma_str_roundtrip(s: Seq<char>, rest: Seq<u8>)
    requires
        s.len() <= u32::MAX,
    ensures
        sdec_str(enc_str(s) + rest) == Some((s, rest)),
{
    lemma_u32_roundtrip(s.len() as u32, enc_chars(s) + rest);
    assert(enc_str(s) + rest =~= enc_u32(s.len() as u32) + (enc_chars(s) + rest));
    lemma_chars_roundtrip(s, rest);
}

/// Appends the bytes of the string `s`.
pub fn write_str(out: &mut Vec<u8>, s: &str)
    requires
        s@.len() <= u32::MAX,
    ensures
        final(out)@ =~= old(out)@ + enc_str(s@),
{
    let n = s.unicode_len();
    write_u32(out, n as u32);
    let mut i: usize = 0;
    while i < n
        invariant
            0 <= i <= n == s@.len(),
            out@ =~= old(out)@ + enc_u32(n as u32) + enc_chars(s@.take(i as int)),
        decreases n - i,
    {
        let c = s.get_char(i);
        write_u32(out, c as u32);
        proof {
            lemma_enc_chars_snoc(s@.take(i as int), s@[i as int]);
            assert(s@.take(i as int).push(s@[i as int]) =~= s@.take(i as int + 1));
        }
        i = i + 1;
    }
    proof {
        assert(s@.take(n as int) =~= s@);
    }
}

/// Writing one more character appends its bytes.
proof fn lemma_enc_chars_snoc(s: Seq<char>, c: char)
    ensures
        enc_chars(s.push(c)) =~= enc_chars(s) + enc_u32(c as u32),
    decreases s.len(),
{
    if s.len() == 0 {
        assert(s.push(c)[0] == c);
        assert(s.push(c).drop_first() =~= Seq::<char>::empty());
        assert(enc_chars(s.push(c)) == enc_u32(s.push(c)[0] as u32) + enc_chars(
            s.push(c).drop_first(),
        ));
        assert(enc_chars(Seq::<char>::empty()) =~= Seq::<u8>::empty());
        assert(enc_chars(s) =~= Seq::<u8>::empty());
        assert(enc_chars(s.push(c)) =~= enc_chars(s) + enc_u32(c as u32));
    } else {
        assert(s.push(c).drop_first() =~= s.drop_first().push(c));
        lemma_enc_chars_snoc(s.drop_first(), c);
        assert(enc_chars(s.push(c)) =~= enc_chars(s) + enc_u32(c as u32));
    }
}

/// Reads a string, advancing `pos`.
pub fn read_str(buf: &[u8], pos: &mut usize) -> (r: Option<String>)
    requires
        *old(pos) <= buf@.len(),
    ensures
        match sdec_str(buf@.skip(*old(pos) as int)) {
            Some((s, rest)) => r matches Some(v) && v@ == s && *old(pos) <= *final(pos)
                <= buf@.len() && buf@.skip(*final(pos) as int) == rest,
            None => r is None,
        },
{
    let n = match read_u32(buf, pos) {
        Some(n) => n,
        None => {
            return None;
        },
    };
    let mut s = String::new();
    let mut i: u32 = 0;
    while i < n
        invariant
            0 <= i <= n,
            *old(pos) <= *pos <= buf@.len(),
            s@.len() == i,
            sdec_str(buf@.skip(*old(pos) as int)) == match sdec_chars(
                buf@.skip(*pos as int),
                (n - i) as nat,
            ) {
                Some((cs, rest)) => Some::<(Seq<char>, Seq<u8>)>((s@ + cs, rest)),
                None => None::<(Seq<char>, Seq<u8>)>,
            },
        decreases n - i,
    {
        let ghost s_pre = s@;
        let ghost rem_pre = buf@.skip(*pos as int);
        let x = match read_u32(buf, pos) {
            Some(x) => x,
            None => {
                return None;
            },
        };
        let c = match char::from_u32(x) {
            Some(c) => c,
            None => {
                return None;
            },
        };
        s.push(c);
        i = i + 1;
        proof {
            let rem = buf@.skip(*pos as int);
            assert(sdec_chars(rem_pre, (n - i + 1) as nat) == match sdec_chars(
                rem,
                (n - i) as nat,
            ) {
                Some((cs2, rest2)) => Some::<(Seq<char>, Seq<u8>)>((seq![c] + cs2, rest2)),
                None => None::<(Seq<char>, Seq<u8>)>,
            });
            if sdec_chars(rem, (n - i) as nat) is Some {
                let (cs2, rest2) = sdec_chars(rem, (n - i) as nat)->Some_0;
                assert(s_pre + (seq![c] + cs2) =~= s@ + cs2);
            }
        }
    }
    proof {
        assert(sdec_chars(buf@.skip(*pos as int), 0) == Some::<(Seq<char>, Seq<u8>)>((
            Seq::empty(),
            buf@.skip(*pos as int),
        )));
        assert(s@ + Seq::<char>::empty() =~= s@);
    }
    Some(s)
}

/// Whether a string fits the wire format's length field.
pub open spec fn str_ok(s: Seq<char>) -> bool {
    s.len() <= u32::MAX
}

/// A list of key-value pairs of strings, as written for the locale table of
/// one entry and for one locale's UI strings.
pub open spec fn enc_pair(p: (Seq<char>, Seq<char>)) -> Seq<u8> {
    enc_str(p.0) + enc_str(p.1)
}

/// Reads one key-value pair of strings.
pub open spec fn sdec_pair(t: Seq<u8>) -> Option<((Seq<char>, Seq<char>), Seq<u8>)> {
    match sdec_str(t) {
        Some((k, rest)) => match sdec_str(rest) {
            Some((v, rest2)) => Some(((k, v), rest2)),
            None => None,
        },
        None => None,
    }
}

/// Reading a written pair gives it back and leaves the rest.
pub proof fn lemma_pair_roundtrip(p: (Seq<char>, Seq<char>), rest: Seq<u8>)
    requires
        str_ok(p.0),
        str_ok(p.1),
    ensures
        sdec_pair(enc_pair(p) + rest) == Some((p, rest)),
{
    assert(enc_pair(p) + rest =~= enc_str(p.0) + (enc_str(p.1) + rest));
    lemma_str_roundtrip(p.0, enc_str(p.1) + rest);
    lemma_str_roundtrip(p.1, rest);
}

/// Whether every pair of the list fits the wire format.
pub open spec fn pairs_ok(s: Seq<(Seq<char>, Seq<char>)>) -> bool {
    s.len() <= u32::MAX && forall|i: int|
        0 <= i < s.len() ==> str_ok((#[trigger] s[i]).0) && str_ok(s[i].1)
}

/// The pairs of the list, one after the other.
pub open spec fn enc_pairs_items(s: Seq<(Seq<char>, Seq<char>)>) -> Seq<u8>
    decreases s.len(),
{
    if s.len() == 0 {
        Seq::empty()
    } else {
        enc_pair(s[0]) + enc_pairs_items(s.drop_first())
    }
}

/// A list of pairs: its length, then its pairs.
pub open spec fn enc_pairs(s: Seq<(Seq<char>, Seq<char>)>) -> Seq<u8> {
    enc_u32(s.len() as u32) + enc_pairs_items(s)
}

/// Reads `n` pairs.
pub open spec fn sdec_pairs_items(t: Seq<u8>, n: nat) -> Option<
    (Seq<(Seq<char>, Seq<char>)>, Seq<u8>),
>
    decreases n,
{
    if n == 0 {
        Some((Seq::empty(), t))
    } else {
        match sdec_pair(t) {
            Some((p, rest)) => match sdec_pairs_items(rest, (n - 1) as nat) {
                Some((s, rest2)) => Some((seq![p] + s, rest2)),
                None => None,
            },
            None => None,
        }
    }
}

/// Reads a list of pairs.
pub open spec fn sdec_pairs(t: Seq<u8>) -> Option<(Seq<(Seq<char>, Seq<char>)>, Seq<u8>)> {
    match sdec_u32(t) {
        Some((n, rest)) => sdec_pairs_items(rest, n as nat),
        None => None,
    }
}

proof fn lemma_pairs_items_roundtrip(s: Seq<(Seq<char>, Seq<char>)>, rest: Seq<u8>)
    requires
        pairs_ok(s),
    ensures
        sdec_pairs_items(enc_pairs_items(s) + rest, s.len()) == Some((s, rest)),
    decreases s.len(),
{
    if s.len() == 0 {
        assert(enc_pairs_items(s) + rest =~= rest);
    } else {
        assert(enc_pairs_items(s) + rest =~= enc_pair(s[0]) + (enc_pairs_items(s.drop_first())
            + rest));
        lemma_pair_roundtrip(s[0], enc_pairs_items(s.drop_first()) + rest);
        assert(pairs_ok(s.drop_first()));
        lemma_pairs_items_roundtrip(s.drop_first(), rest);
        assert(seq![s[0]] + s.drop_first() =~= s);
    }
}

/// Reading a written list of pairs gives it back and leaves the rest.
pub proof fn lemma_pairs_roundtrip(s: Seq<(Seq<char>, Seq<char>)>, rest: Seq<u8>)
    requires
        pairs_ok(s),
    ensures
        sdec_pairs(enc_pairs(s) + rest) == Some((s, rest)),
{
    lemma_u32_roundtrip(s.len() as u32, enc_pairs_items(s) + rest);
    assert(enc_pairs(s) + rest =~= enc_u32(s.len() as u32) + (enc_pairs_items(s) + rest));
    lemma_pairs_items_roundtrip(s, rest);
}

/// What one catalog entry looks like on the wire: its numeric ID and, for
/// each locale, the name of the entry.
pub type RecDeep = (u32, Seq<(Seq<char>, Seq<char>)>);

/// Whether a record fits the wire format.
pub open spec fn rec_ok(r: RecDeep) -> bool {
    pairs_ok(r.1)
}

/// One catalog entry: its ID, then its locale table.
pub open spec fn enc_rec(r: RecDeep) -> Seq<u8> {
    enc_u32(r.0) + enc_pairs(r.1)
}

/// Reads one catalog entry.
pub open spec fn sdec_rec(t: Seq<u8>) -> Option<(RecDeep, Seq<u8>)> {
    match sdec_u32(t) {
        Some((id, rest)) => match sdec_pairs(rest) {
            Some((s, rest2)) => Some(((id, s), rest2)),
            None => None,
        },
        None => None,
    }
}

/// Reading a written entry gives it back and leaves the rest.
pub proof fn lemma_rec_roundtrip(r: RecDeep, rest: Seq<u8>)
    requires
        rec_ok(r),
    ensures
        sdec_rec(enc_rec(r) + rest) == Some((r, rest)),
{
    assert(enc_rec(r) + rest =~= enc_u32(r.0) + (enc_pairs(r.1) + rest));
    lemma_u32_roundtrip(r.0, enc_pairs(r.1) + rest);
    lemma_pairs_roundtrip(r.1, rest);
}

/// What one per-kind table looks like on the wire: keys paired with entries,
/// in table order.
pub type TableDeep = Seq<(u32, RecDeep)>;

/// Whether a table fits the wire format.
pub open spec fn table_ok(s: TableDeep) -> bool {
    s.len() <= u32::MAX && forall|i: int| 0 <= i < s.len() ==> rec_ok((#[trigger] s[i]).1)
}

/// One keyed table entry: the key, then the entry.
pub open spec fn enc_tentry(e: (u32, RecDeep)) -> Seq<u8> {
    enc_u32(e.0) + enc_rec(e.1)
}

/// Reads one keyed table entry.
pub open spec fn sdec_tentry(t: Seq<u8>) -> Option<((u32, RecDeep), Seq<u8>)> {
    match sdec_u32(t) {
        Some((k, rest)) => match sdec_rec(rest) {
            Some((r, rest2)) => Some(((k, r), rest2)),
            None => None,
        },
        None => None,
    }
}

proof fn lemma_tentry_roundtrip(e: (u32, RecDeep), rest: Seq<u8>)
    requires
        rec_ok(e.1),
    ensures
        sdec_tentry(enc_tentry(e) + rest) == Some((e, rest)),
{
    assert(enc_tentry(e) + rest =~= enc_u32(e.0) + (enc_rec(e.1) + rest));
    lemma_u32_roundtrip(e.0, enc_rec(e.1) + rest);
    lemma_rec_roundtrip(e.1, rest);
}

/// The entries of a table, one after the other.
pub open spec fn enc_titems(s: TableDeep) -> Seq<u8>
    decreases s.len(),
{
    if s.len() == 0 {
        Seq::empty()
    } else {
        enc_tentry(s[0]) + enc_titems(s.drop_first())
    }
}

/// A per-kind table: its length, then its entries.
pub open spec fn enc_table(s: TableDeep) -> Seq<u8> {
    enc_u32(s.len() as u32) + enc_titems(s)
}

/// Reads `n` keyed table entries.
pub open spec fn sdec_titems(t: Seq<u8>, n: nat) -> Option<(TableDeep, Seq<u8>)>
    decreases n,
{
    if n == 0 {
        Some((Seq::empty(), t))
    } else {
        match sdec_tentry(t) {
            Some((e, rest)) => match sdec_titems(rest, (n - 1) as nat) {
                Some((s, rest2)) => Some((seq![e] + s, rest2)),
                None => None,
            },
            None => None,
        }
    }
}

/// Reads a per-kind table.
pub open spec fn sdec_table(t: Seq<u8>) -> Option<(TableDeep, Seq<u8>)> {
    match sdec_u32(t) {
        Some((n, rest)) => sdec_titems(rest, n as nat),
        None => None,
    }
}

proof fn lemma_titems_roundtrip(s: TableDeep, rest: Seq<u8>)
    requires
        table_ok(s),
    ensures
        sdec_titems(enc_titems(s) + rest, s.len()) == Some((s, rest)),
    decreases s.len(),
{
    if s.len() == 0 {
        assert(enc_titems(s) + rest =~= rest);
    } else {
        assert(enc_titems(s) + rest =~= enc_tentry(s[0]) + (enc_titems(s.drop_first()) + rest));
        lemma_tentry_roundtrip(s[0], enc_titems(s.drop_first()) + rest);
        assert(table_ok(s.drop_first()));
        lemma_titems_roundtrip(s.drop_first(), rest);
        assert(seq![s[0]] + s.drop_first() =~= s);
    }
}

/// Reading a written table gives it back and leaves the rest.
pub proof fn lemma_table_roundtrip(s: TableDeep, rest: Seq<u8>)
    requires
        table_ok(s),
    ensures
        sdec_table(enc_table(s) + rest) == Some((s, rest)),
{
    lemma_u32_roundtrip(s.len() as u32, enc_titems(s) + rest);
    assert(enc_table(s) + rest =~= enc_u32(s.len() as u32) + (enc_titems(s) + rest));
    lemma_titems_roundtrip(s, rest);
}

/// What the locale string tables look like on the wire: for each locale, the
/// UI-string keys with their localized strings.
pub type UisDeep = Seq<(Seq<char>, Seq<(Seq<char>, Seq<char>)>)>;

/// Whether the locale string tables fit the wire format.
pub open spec fn uis_ok(s: UisDeep) -> bool {
    s.len() <= u32::MAX && forall|i: int|
        0 <= i < s.len() ==> str_ok((#[trigger] s[i]).0) && pairs_ok(s[i].1)
}

/// One locale's table: the locale tag, then its UI strings.
pub open spec fn enc_uientry(e: (Seq<char>, Seq<(Seq<char>, Seq<char>)>)) -> Seq<u8> {
    enc_str(e.0) + enc_pairs(e.1)
}

/// Reads one locale's table.
pub open spec fn sdec_uientry(t: Seq<u8>) -> Option<
    ((Seq<char>, Seq<(Seq<char>, Seq<char>)>), Seq<u8>),
> {
    match sdec_str(t) {
        Some((k, rest)) => match sdec_pairs(rest) {
            Some((v, rest2)) => Some(((k, v), rest2)),
            None => None,
        },
        None => None,
    }
}

proof fn lemma_uientry_roundtrip(e: (Seq<char>, Seq<(Seq<char>, Seq<char>)>), rest: Seq<u8>)
    requires
        str_ok(e.0),
        pairs_ok(e.1),
    ensures
        sdec_uientry(enc_uientry(e) + rest) == Some((e, rest)),
{
    assert(enc_uientry(e) + rest =~= enc_str(e.0) + (enc_pairs(e.1) + rest));
    lemma_str_roundtrip(e.0, enc_pairs(e.1) + rest);
    lemma_pairs_roundtrip(e.1, rest);
}

/// The locale tables, one after the other.
pub open spec fn enc_uiitems(s: UisDeep) -> Seq<u8>
    decreases s.len(),
{
    if s.len() == 0 {
        Seq::empty()
    } else {
        enc_uientry(s[0]) + enc_uiitems(s.drop_first())
    }
}

/// The locale string tables: their number, then the tables.
pub open spec fn enc_uis(s: UisDeep) -> Seq<u8> {
    enc_u32(s.len() as u32) + enc_uiitems(s)
}

/// Reads `n` locale tables.
pub open spec fn sdec_uiitems(t: Seq<u8>, n: nat) -> Option<(UisDeep, Seq<u8>)>
    decreases n,
{
    if n == 0 {
        Some((Seq::empty(), t))
    } else {
        match sdec_uientry(t) {
            Some((e, rest)) => match sdec_uiitems(rest, (n - 1) as nat) {
                Some((s, rest2)) => Some((seq![e] + s, rest2)),
                None => None,
            },
            None => None,
        }
    }
}

/// Reads the locale string tables.
pub open spec fn sdec_uis(t: Seq<u8>) -> Option<(UisDeep, Seq<u8>)> {
    match sdec_u32(t) {
        Some((n, rest)) => sdec_uiitems(rest, n as nat),
        None => None,
    }
}

proof fn lemma_uiitems_roundtrip(s: UisDeep, rest: Seq<u8>)
    requires
        uis_ok(s),
    ensures
        sdec_uiitems(enc_uiitems(s) + rest, s.len()) == Some((s, rest)),
    decreases s.len(),
{
    if s.len() == 0 {
        assert(enc_uiitems(s) + rest =~= rest);
    } else {
        assert(enc_uiitems(s) + rest =~= enc_uientry(s[0]) + (enc_uiitems(s.drop_first())
            + rest));
        lemma_uientry_roundtrip(s[0], enc_uiitems(s.drop_first()) + rest);
        assert(uis_ok(s.drop_first()));
        lemma_uiitems_roundtrip(s.drop_first(), rest);
        assert(seq![s[0]] + s.drop_first() =~= s);
    }
}

/// Reading the written locale tables gives them back and leaves the rest.
pub proof fn lemma_uis_roundtrip(s: UisDeep, rest: Seq<u8>)
    requires
        uis_ok(s),
    ensures
        sdec_uis(enc_uis(s) + rest) == Some((s, rest)),
{
    lemma_u32_roundtrip(s.len() as u32, enc_uiitems(s) + rest);
    assert(enc_uis(s) + rest =~= enc_u32(s.len() as u32) + (enc_uiitems(s) + rest));
    lemma_uiitems_roundtrip(s, rest);
}

/// Writing one more pair appends its bytes.
pub proof fn lemma_enc_pairs_items_snoc(s: Seq<(Seq<char>, Seq<char>)>, p: (Seq<char>, Seq<char>))
    ensures
        enc_pairs_items(s.push(p)) =~= enc_pairs_items(s) + enc_pair(p),
    decreases s.len(),
{
    if s.len() == 0 {
        assert(s.push(p)[0] == p);
        assert(s.push(p).drop_first() =~= Seq::<(Seq<char>, Seq<char>)>::empty());
        assert(enc_pairs_items(s.push(p)) == enc_pair(s.push(p)[0]) + enc_pairs_items(
            s.push(p).drop_first(),
        ));
        assert(enc_pairs_items(Seq::<(Seq<char>, Seq<char>)>::empty()) =~= Seq::<u8>::empty());
        assert(enc_pairs_items(s) =~= Seq::<u8>::empty());
        assert(enc_pairs_items(s.push(p)) =~= enc_pairs_items(s) + enc_pair(p));
    } else {
        assert(s.push(p).drop_first() =~= s.drop_first().push(p));
        lemma_enc_pairs_items_snoc(s.drop_first(), p);
        assert(enc_pairs_items(s.push(p)) =~= enc_pairs_items(s) + enc_pair(p));
    }
}

/// Writing one more table entry appends its bytes.
pub proof fn lemma_enc_titems_snoc(s: TableDeep, e: (u32, RecDeep))
    ensures
        enc_titems(s.push(e)) =~= enc_titems(s) + enc_tentry(e),
    decreases s.len(),
{
    if s.len() == 0 {
        assert(s.push(e)[0] == e);
        assert(s.push(e).drop_first() =~= Seq::<(u32, RecDeep)>::empty());
        assert(enc_titems(s.push(e)) == enc_tentry(s.push(e)[0]) + enc_titems(
            s.push(e).drop_first(),
        ));
        assert(enc_titems(Seq::<(u32, RecDeep)>::empty()) =~= Seq::<u8>::empty());
        assert(enc_titems(s) =~= Seq::<u8>::empty());
        assert(enc_titems(s.push(e)) =~= enc_titems(s) + enc_tentry(e));
    } else {
        assert(s.push(e).drop_first() =~= s.drop_first().push(e));
        lemma_enc_titems_snoc(s.drop_first(), e);
        assert(enc_titems(s.push(e)) =~= enc_titems(s) + enc_tentry(e));
    }
}

/// Writing one more locale table appends its bytes.
pub proof fn lemma_enc_uiitems_snoc(s: UisDeep, e: (Seq<char>, Seq<(Seq<char>, Seq<char>)>))
    ensures
        enc_uiitems(s.push(e)) =~= enc_uiitems(s) + enc_uientry(e),
    decreases s.len(),
{
    if s.len() == 0 {
        assert(s.push(e)[0] == e);
        assert(s.push(e).drop_first() =~= Seq::<
            (Seq<char>, Seq<(Seq<char>, Seq<char>)>),
        >::empty());
        assert(enc_uiitems(s.push(e)) == enc_uientry(s.push(e)[0]) + enc_uiitems(
            s.push(e).drop_first(),
        ));
        assert(enc_uiitems(Seq::<(Seq<char>, Seq<(Seq<char>, Seq<char>)>)>::empty())
            =~= Seq::<u8>::empty());
        assert(enc_uiitems(s) =~= Seq::<u8>::empty());
        assert(enc_uiitems(s.push(e)) =~= enc_uiitems(s) + enc_uientry(e));
    } else {
        assert(s.push(e).drop_first() =~= s.drop_first().push(e));
        lemma_enc_uiitems_snoc(s.drop_first(), e);
        assert(enc_uiitems(s.push(e)) =~= enc_uiitems(s) + enc_uientry(e));
    }
}

} // verus!
