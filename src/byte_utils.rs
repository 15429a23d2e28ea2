use vstd::prelude::*;
use vstd::string::*;
use vstd::utf8::*;
use crate::error::DecodeError;

verus! {

/// The little-endian `u16` at `off`.
pub open spec fn le_u16(b: Seq<u8>, off: int) -> u16 {
    (b[off] as u16) | ((b[off + 1] as u16) << 8u16)
}

/// The little-endian `u32` at `off`.
pub open spec fn le_u32(b: Seq<u8>, off: int) -> u32 {
    (b[off] as u32) | ((b[off + 1] as u32) << 8u32) | ((b[off + 2] as u32) << 16u32) | ((
    b[off + 3] as u32) << 24u32)
}

/// `n` bytes starting at `off` lie inside `b`.
pub open spec fn in_bounds(b: Seq<u8>, off: int, n: int) -> bool {
    0 <= off && off + n <= b.len()
}

/// The sequence in reverse order.
pub open spec fn reversed<A>(s: Seq<A>) -> Seq<A> {
    Seq::new(s.len(), |i: int| s[s.len() - 1 - i])
}

/// The characters that `b` encodes, if it is valid UTF-8.
pub open spec fn utf8_chars(b: Seq<u8>) -> Option<Seq<char>> {
    if valid_utf8(b) {
        Some(decode_utf8(b))
    } else {
        None
    }
}

/// The index of the first zero byte at or after `i`, or the length of `b` if there is none.
pub open spec fn run_end(b: Seq<u8>, i: int) -> int
    decreases b.len() - i,
{
    if i >= b.len() || b[i] == 0 {
        i
    } else {
        run_end(b, i + 1)
    }
}

/// The bytes from `off` up to the next zero byte (or the end).
pub open spec fn null_run(b: Seq<u8>, off: int) -> Seq<u8> {
    b.subrange(off, run_end(b, off))
}

/// Splitting on zero bytes: the finished pieces, and the bytes after the last zero.
pub open spec fn nul_split(b: Seq<u8>) -> (Seq<Seq<u8>>, Seq<u8>)
    decreases b.len(),
{
    if b.len() == 0 {
        (seq![], seq![])
    } else {
        let (done, cur) = nul_split(b.drop_last());
        if b.last() == 0 {
            (done.push(cur), seq![])
        } else {
            (done, cur.push(b.last()))
        }
    }
}

/// The zero-terminated pieces of `b`; bytes after the last zero belong to none.
pub open spec fn nul_pieces(b: Seq<u8>) -> Seq<Seq<u8>> {
    nul_split(b).0
}

/// Every piece is valid UTF-8.
pub open spec fn all_utf8(p: Seq<Seq<u8>>) -> bool {
    forall|i: int| 0 <= i < p.len() ==> valid_utf8(#[trigger] p[i])
}

/// What a string table decodes to: each piece's characters.
pub open spec fn decoded_pieces(p: Seq<Seq<u8>>) -> Seq<Seq<char>> {
    Seq::new(p.len(), |i: int| decode_utf8(p[i]))
}

/// The characters of each string.
pub open spec fn string_views(v: Seq<String>) -> Seq<Seq<char>> {
    Seq::new(v.len(), |i: int| v[i]@)
}

/// Relies on `String::from_utf8`: it succeeds exactly on valid UTF-8 and keeps the characters.
#[verifier::external_body]
fn string_from_utf8(b: Vec<u8>) -> (r: Option<String>)
    ensures
        r is Some <==> valid_utf8(b@),
        r matches Some(s) ==> s@ == decode_utf8(b@),
{
    String::from_utf8(b).ok()
}

/// Relies on `String::push`: the character is appended at the end.
pub assume_specification[ String::push ](s: &mut String, ch: char)
    ensures
        final(s)@ == old(s)@.push(ch),
;

/// Copies `b[from..to]`.
pub fn copy_range(b: &Vec<u8>, from: usize, to: usize) -> (r: Vec<u8>)
    requires
        from <= to <= b@.len(),
    ensures
        r@ == b@.subrange(from as int, to as int),
{
    let mut out: Vec<u8> = Vec::with_capacity(to - from);
    let mut i: usize = from;
    while i < to
        invariant
            from <= i <= to <= b@.len(),
            out@ == b@.subrange(from as int, i as int),
        decreases to - i,
    {
        out.push(b[i]);
        i = i + 1;
        assert(out@ =~= b@.subrange(from as int, i as int));
    }
    out
}

/// Decodes `b` as UTF-8.
pub fn decode_string(b: Vec<u8>) -> (r: Result<String, DecodeError>)
    ensures
        r is Ok <==> valid_utf8(b@),
        r matches Ok(s) ==> s@ == decode_utf8(b@),
        r matches Err(e) ==> e == DecodeError::InvalidEncoding,
{
    match string_from_utf8(b) {
        Some(s) => Ok(s),
        None => Err(DecodeError::InvalidEncoding),
    }
}

/// The characters of `s` in reverse order.
pub fn reverse_chars(s: &str) -> (r: String)
    ensures
        r@ == reversed(s@),
{
    let n = s.unicode_len();
    let mut out = String::new();
    let mut i: usize = n;
    while i > 0
        invariant
            i <= n == s@.len(),
            out@ == reversed(s@).subrange(0, (n - i) as int),
        decreases i,
    {
        i = i - 1;
        let c = s.get_char(i);
        out.push(c);
        assert(out@ =~= reversed(s@).subrange(0, (n - i) as int));
    }
    assert(out@ =~= reversed(s@));
    out
}

/// Reads two bytes at `offset`.
pub fn get_two_bytes(b: &Vec<u8>, offset: usize) -> (r: Result<[u8; 2], DecodeError>)
    ensures
        r is Ok <==> in_bounds(b@, offset as int, 2),
        r matches Ok(a) ==> a@ == b@.subrange(offset as int, offset + 2),
        r matches Err(e) ==> e == DecodeError::OutOfRange,
{
    if offset > b.len() || b.len() - offset < 2 {
        return Err(DecodeError::OutOfRange);
    }
    let a = [b[offset], b[offset + 1]];
    assert(a@ =~= b@.subrange(offset as int, offset + 2));
    Ok(a)
}

/// Reads four bytes at `offset`.
pub fn get_four_bytes(b: &Vec<u8>, offset: usize) -> (r: Result<[u8; 4], DecodeError>)
    ensures
        r is Ok <==> in_bounds(b@, offset as int, 4),
        r matches Ok(a) ==> a@ == b@.subrange(offset as int, offset + 4),
        r matches Err(e) ==> e == DecodeError::OutOfRange,
{
    if offset > b.len() || b.len() - offset < 4 {
        return Err(DecodeError::OutOfRange);
    }
    let a = [b[offset], b[offset + 1], b[offset + 2], b[offset + 3]];
    assert(a@ =~= b@.subrange(offset as int, offset + 4));
    Ok(a)
}

/// Reads a little-endian `u16` at `offset`.
pub fn get_u16(b: &Vec<u8>, offset: usize) -> (r: Result<u16, DecodeError>)
    ensures
        r is Ok <==> in_bounds(b@, offset as int, 2),
        r matches Ok(v) ==> v == le_u16(b@, offset as int),
        r matches Err(e) ==> e == DecodeError::OutOfRange,
{
    if offset > b.len() || b.len() - offset < 2 {
        return Err(DecodeError::OutOfRange);
    }
    Ok((b[offset] as u16) | ((b[offset + 1] as u16) << 8u16))
}

/// Reads a little-endian `u32` at `offset`.
pub fn get_u32(b: &Vec<u8>, offset: usize) -> (r: Result<u32, DecodeError>)
    ensures
        r is Ok <==> in_bounds(b@, offset as int, 4),
        r matches Ok(v) ==> v == le_u32(b@, offset as int),
        r matches Err(e) ==> e == DecodeError::OutOfRange,
{
    if offset > b.len() || b.len() - offset < 4 {
        return Err(DecodeError::OutOfRange);
    }
    Ok((b[offset] as u32) | ((b[offset + 1] as u32) << 8u32) | ((b[offset + 2] as u32) << 16u32)
        | ((b[offset + 3] as u32) << 24u32))
}

/// The little-endian `u32` at `offset`, which the caller knows lies inside `b`.
pub fn read_u32(b: &Vec<u8>, offset: usize) -> (r: u32)
    requires
        in_bounds(b@, offset as int, 4),
    ensures
        r == le_u32(b@, offset as int),
{
    let n = b.len();
    assert(offset + 4 <= n);
    (b[offset] as u32) | ((b[offset + 1] as u32) << 8u32) | ((b[offset + 2] as u32) << 16u32) | ((
    b[offset + 3] as u32) << 24u32)
}

/// The little-endian `u16` at `offset`, which the caller knows lies inside `b`.
pub fn read_u16(b: &Vec<u8>, offset: usize) -> (r: u16)
    requires
        in_bounds(b@, offset as int, 2),
    ensures
        r == le_u16(b@, offset as int),
{
    let n = b.len();
    assert(offset + 2 <= n);
    (b[offset] as u16) | ((b[offset + 1] as u16) << 8u16)
}

/// Reads a little-endian `i32` at `offset`.
pub fn get_i32(b: &Vec<u8>, offset: usize) -> (r: Result<i32, DecodeError>)
    ensures
        r is Ok <==> in_bounds(b@, offset as int, 4),
        r matches Ok(v) ==> v == le_u32(b@, offset as int) as i32,
        r matches Err(e) ==> e == DecodeError::OutOfRange,
{
    let v = get_u32(b, offset)?;
    Ok(v as i32)
}

/// Decodes the `len` bytes at `from` as UTF-8.
pub fn get_string(b: &Vec<u8>, from: usize, len: usize) -> (r: Result<String, DecodeError>)
    ensures
        !in_bounds(b@, from as int, len as int) ==> r == Err::<String, DecodeError>(
            DecodeError::OutOfRange,
        ),
        in_bounds(b@, from as int, len as int) ==> {
            let bytes = b@.subrange(from as int, from + len);
            &&& r is Ok <==> valid_utf8(bytes)
            &&& r matches Ok(s) ==> s@ == decode_utf8(bytes)
            &&& r matches Err(e) ==> e == DecodeError::InvalidEncoding
        },
{
    if from > b.len() || b.len() - from < len {
        return Err(DecodeError::OutOfRange);
    }
    let bytes = copy_range(b, from, from + len);
    decode_string(bytes)
}

/// Decodes the `len` bytes at `from` as UTF-8 and reverses the order of the characters.
pub fn get_reversed_string(b: &Vec<u8>, from: usize, len: usize) -> (r: Result<String, DecodeError>)
    ensures
        !in_bounds(b@, from as int, len as int) ==> r == Err::<String, DecodeError>(
            DecodeError::OutOfRange,
        ),
        in_bounds(b@, from as int, len as int) ==> {
            let bytes = b@.subrange(from as int, from + len);
            &&& r is Ok <==> valid_utf8(bytes)
            &&& r matches Ok(s) ==> s@ == reversed(decode_utf8(bytes))
            &&& r matches Err(e) ==> e == DecodeError::InvalidEncoding
        },
{
    let s = get_string(b, from, len)?;
    Ok(reverse_chars(s.as_str()))
}

/// Decodes the bytes from `offset` up to the next zero byte (or the end) as UTF-8.
pub fn get_string_null_terminated(b: &Vec<u8>, offset: usize) -> (r: Result<String, DecodeError>)
    ensures
        offset >= b@.len() ==> r == Err::<String, DecodeError>(DecodeError::OutOfRange),
        offset < b@.len() ==> {
            let bytes = null_run(b@, offset as int);
            &&& r is Ok <==> valid_utf8(bytes)
            &&& r matches Ok(s) ==> s@ == decode_utf8(bytes)
            &&& r matches Err(e) ==> e == DecodeError::InvalidEncoding
        },
{
    if offset >= b.len() {
        return Err(DecodeError::OutOfRange);
    }
    let mut i: usize = offset;
    while i < b.len() && b[i] != 0
        invariant
            offset <= i <= b@.len(),
            run_end(b@, offset as int) == run_end(b@, i as int),
        decreases b@.len() - i,
    {
        i = i + 1;
    }
    let bytes = copy_range(b, offset, i);
    decode_string(bytes)
}

/// Splits `b` on every zero byte and decodes each finished piece as UTF-8.
pub fn get_null_terminated_strings(b: &Vec<u8>) -> (r: Result<Vec<String>, DecodeError>)
    ensures
        r is Ok <==> all_utf8(nul_pieces(b@)),
        r matches Ok(v) ==> string_views(v@) == decoded_pieces(nul_pieces(b@)),
        r matches Err(e) ==> e == DecodeError::InvalidEncoding,
{
    let mut acc: Vec<String> = Vec::new();
    let mut cur: Vec<u8> = Vec::new();
    let mut ok = true;
    let mut i: usize = 0;
    while i < b.len()
        invariant
            i <= b@.len(),
            cur@ == nul_split(b@.subrange(0, i as int)).1,
            ok == all_utf8(nul_split(b@.subrange(0, i as int)).0),
            ok ==> string_views(acc@) == decoded_pieces(
                nul_split(b@.subrange(0, i as int)).0,
            ),
        decreases b@.len() - i,
    {
        let ghost prev = b@.subrange(0, i as int);
        let ghost next = b@.subrange(0, i + 1);
        assert(next.drop_last() =~= prev);
        let byte = b[i];
        assert(next.last() == byte);
        if byte == 0 {
            let piece = cur;
            let ghost pv = piece@;
            cur = Vec::new();
            let ghost done = nul_split(prev).0;
            let ghost old_acc = acc@;
            match string_from_utf8(piece) {
                Some(s) => {
                    acc.push(s);
                    proof {
                        let nd = nul_split(next).0;
                        assert(nd == done.push(pv));
                        if ok {
                            assert(string_views(old_acc) == decoded_pieces(done));
                            assert forall|k: int| 0 <= k < nd.len() implies #[trigger] string_views(acc@)[k] == decoded_pieces(nd)[k] by {
                                if k < done.len() {
                                    assert(string_views(old_acc)[k] == decoded_pieces(done)[k]);
                                }
                            }
                            assert(string_views(acc@) =~= decoded_pieces(nd));
                        }
                    }
                },
                None => {
                    ok = false;
                },
            }
            proof {
                let nd = nul_split(next).0;
                assert(nd == done.push(pv));
                if all_utf8(nd) {
                    assert forall|k: int| 0 <= k < done.len() implies valid_utf8(#[trigger] done[k]) by {
                        assert(nd[k] == done[k]);
                    }
                    assert(valid_utf8(nd[done.len() as int]));
                }
                if all_utf8(done) && valid_utf8(pv) {
                    assert forall|k: int| 0 <= k < nd.len() implies valid_utf8(#[trigger] nd[k]) by {
                        if k < done.len() {
                            assert(nd[k] == done[k]);
                        }
                    }
                }
            }
        } else {
            cur.push(byte);
        }
        i = i + 1;
    }
    assert(b@.subrange(0, b@.len() as int) =~= b@);
    if ok {
        Ok(acc)
    } else {
        Err(DecodeError::InvalidEncoding)
    }
}

} // verus!
