use vstd::prelude::*;
use vstd::utf8::*;
use crate::byte_utils::{copy_range, get_reversed_string, le_u32, read_u32, reversed};
use crate::error::DecodeError;

verus! {

/// A tagged block: four tag bytes as stored, the payload's size, and the payload.
#[derive(Debug)]
pub struct Chunk {
    pub id: [u8; 4],
    pub size: u32,
    pub data: Vec<u8>,
}

/// A chunk as the walk sees it: its stored tag bytes and its payload.
pub type ChunkView = (Seq<u8>, Seq<u8>);

impl View for Chunk {
    type V = ChunkView;

    open spec fn view(&self) -> ChunkView {
        (self.id@, self.data@)
    }
}

impl Chunk {
    /// The size field agrees with the payload.
    pub open spec fn wf(&self) -> bool {
        self.size as int == self.data@.len()
    }

    /// The tag as readable text: the stored bytes decoded, characters reversed.
    pub fn get_id_as_string(&self) -> (r: Result<String, DecodeError>)
        ensures
            r is Ok <==> valid_utf8(self.id@),
            r matches Ok(s) ==> tag_name(self.id@) == Some(s@),
            r matches Err(e) ==> e == DecodeError::InvalidEncoding,
    {
        let v: Vec<u8> = vec![self.id[0], self.id[1], self.id[2], self.id[3]];
        assert(v@.subrange(0, 4) =~= self.id@);
        get_reversed_string(&v, 0, 4)
    }

    /// The tag reads as `name`.
    pub fn is_type(&self, name: &str) -> (r: bool)
        ensures
            r == (tag_name(self.id@) == Some(name@)),
    {
        match self.get_id_as_string() {
            Ok(s) => s == name.to_owned(),
            Err(_) => false,
        }
    }

    /// Walks `buf` from its start into its chunks.
    pub fn from_bytes(buf: &Vec<u8>) -> (r: Result<Vec<Chunk>, DecodeError>)
        ensures
            r is Ok <==> walk(buf@, 0) is Some,
            r matches Ok(v) ==> chunk_views(v@) == walk(buf@, 0)->0 && all_wf(v@),
            r matches Err(e) ==> e == DecodeError::TruncatedChunk,
    {
        let mut offset: usize = 0;
        let mut builder: Vec<Chunk> = Vec::new();
        let max_size = buf.len();
        while offset <= max_size && max_size - offset >= 4
            invariant
                max_size == buf@.len(),
                offset <= max_size,
                walk(buf@, 0) == prepend(chunk_views(builder@), walk(buf@, offset as int)),
                all_wf(builder@),
            decreases max_size - offset,
        {
            if max_size - offset < 8 {
                return Err(DecodeError::TruncatedChunk);
            }
            let id: [u8; 4] = [buf[offset], buf[offset + 1], buf[offset + 2], buf[offset + 3]];
            assert(id@ =~= buf@.subrange(offset as int, offset + 4));
            let size = Chunk::get_chunk_size(&id, buf, offset);
            if size > max_size - offset - 8 {
                return Err(DecodeError::TruncatedChunk);
            }
            let data = copy_range(buf, offset + 8, offset + 8 + size);
            let next = offset + 8 + size;
            let ghost c: ChunkView = (id@, data@);
            let ghost before = chunk_views(builder@);
            assert(walk(buf@, offset as int) == prepend(seq![c], walk(buf@, next as int)));
            builder.push(Chunk { id, size: size as u32, data });
            proof {
                lemma_prepend_assoc(before, seq![c], walk(buf@, next as int));
                assert(chunk_views(builder@) =~= before + seq![c]);
            }
            offset = next;
        }
        Ok(builder)
    }

    /// The payload size of the chunk at `offset`: the corrected size when the tag is in
    /// the correction table, the stored size field otherwise.
    fn get_chunk_size(chunk_id: &[u8; 4], buffered_file: &Vec<u8>, offset: usize) -> (r: usize)
        requires
            offset + 8 <= buffered_file@.len() <= usize::MAX,
            chunk_id@ == buffered_file@.subrange(offset as int, offset + 4),
        ensures
            r as nat == effective_size(buffered_file@, offset as int),
            r <= u32::MAX,
    {
        match size_correction_for(chunk_id) {
            Some(n) => n,
            None => read_u32(buffered_file, offset + 4) as usize,
        }
    }
}

/// One entry of the correction table.
pub struct ChunkFix {
    pub chunk_id: [u8; 4],
    pub chunk_size_correction: usize,
}

/// The producers of some files write a wrong size for a few tags; the payload sizes that
/// hold for those tags. The first entry is the group header of a world-map-object group file.
pub open spec fn correction_table() -> Seq<(Seq<u8>, nat)> {
    seq![(seq![80u8, 71u8, 79u8, 77u8], 68nat), (seq![1u8, 0u8, 0u8, 0u8], 40nat)]
}

/// `a` ends with `b`.
pub open spec fn ends_with(a: Seq<u8>, b: Seq<u8>) -> bool {
    b.len() <= a.len() && a.subrange(a.len() - b.len(), a.len() as int) == b
}

/// The size of the first table entry from `i` on whose tag ends with `tag`.
pub open spec fn first_fix(t: Seq<(Seq<u8>, nat)>, tag: Seq<u8>, i: int) -> Option<nat>
    decreases t.len() - i,
{
    if i < 0 || i >= t.len() {
        None
    } else if ends_with(t[i].0, tag) {
        Some(t[i].1)
    } else {
        first_fix(t, tag, i + 1)
    }
}

/// The corrected size for a tag, if the table has one.
pub open spec fn size_correction(tag: Seq<u8>) -> Option<nat> {
    first_fix(correction_table(), tag, 0)
}

/// The payload size that the walk uses for the chunk at `off`.
pub open spec fn effective_size(b: Seq<u8>, off: int) -> nat {
    match size_correction(b.subrange(off, off + 4)) {
        Some(n) => n,
        None => le_u32(b, off + 4) as nat,
    }
}

/// Puts `s` in front of a walk's result.
pub open spec fn prepend(s: Seq<ChunkView>, w: Option<Seq<ChunkView>>) -> Option<Seq<ChunkView>> {
    match w {
        Some(rest) => Some(s + rest),
        None => None,
    }
}

/// The chunks of `b` from `off` on: tag, size, payload, one after the other. It stops when
/// fewer than four bytes are left and fails when a chunk would run past the end.
pub open spec fn walk(b: Seq<u8>, off: int) -> Option<Seq<ChunkView>>
    decreases b.len() - off,
{
    if off < 0 || off + 4 > b.len() {
        Some(seq![])
    } else if off + 8 > b.len() {
        None
    } else {
        let size = effective_size(b, off);
        if off + 8 + size > b.len() {
            None
        } else {
            prepend(
                seq![(b.subrange(off, off + 4), b.subrange(off + 8, off + 8 + size))],
                walk(b, off + 8 + size),
            )
        }
    }
}

/// The views of a sequence of chunks.
pub open spec fn chunk_views(v: Seq<Chunk>) -> Seq<ChunkView> {
    Seq::new(v.len(), |i: int| v[i]@)
}

/// Every chunk's size field agrees with its payload.
pub open spec fn all_wf(v: Seq<Chunk>) -> bool {
    forall|i: int| 0 <= i < v.len() ==> (#[trigger] v[i]).wf()
}

/// The bytes a sequence of chunks covers: eight header bytes and the payload of each.
pub open spec fn span(cs: Seq<ChunkView>) -> nat
    decreases cs.len(),
{
    if cs.len() == 0 {
        0
    } else {
        8 + cs[0].1.len() + span(cs.drop_first())
    }
}

/// The readable name of a tag: its bytes decoded as UTF-8, characters reversed.
pub open spec fn tag_name(id: Seq<u8>) -> Option<Seq<char>> {
    if valid_utf8(id) {
        Some(reversed(decode_utf8(id)))
    } else {
        None
    }
}

/// The index of the first chunk from `i` on whose tag reads as `name`.
pub open spec fn find_from(cs: Seq<ChunkView>, name: Seq<char>, i: int) -> Option<int>
    decreases cs.len() - i,
{
    if i < 0 || i >= cs.len() {
        None
    } else if tag_name(cs[i].0) == Some(name) {
        Some(i)
    } else {
        find_from(cs, name, i + 1)
    }
}

/// The index of the first chunk whose tag reads as `name`.
pub open spec fn find_chunk(cs: Seq<ChunkView>, name: Seq<char>) -> Option<int> {
    find_from(cs, name, 0)
}

proof fn lemma_prepend_assoc(a: Seq<ChunkView>, b: Seq<ChunkView>, w: Option<Seq<ChunkView>>)
    ensures
        prepend(a, prepend(b, w)) == prepend(a + b, w),
{
    if let Some(rest) = w {
        assert(a + (b + rest) =~= (a + b) + rest);
    }
}

fn chunk_size_fixes() -> (r: Vec<ChunkFix>)
    ensures
        r@.len() == correction_table().len(),
        forall|i: int|
            0 <= i < r@.len() ==> (#[trigger] r@[i]).chunk_id@ == correction_table()[i].0
                && r@[i].chunk_size_correction as nat == correction_table()[i].1,
{
    let mut v: Vec<ChunkFix> = Vec::new();
    v.push(ChunkFix { chunk_id: [80, 71, 79, 77], chunk_size_correction: 68 });
    v.push(ChunkFix { chunk_id: [1, 0, 0, 0], chunk_size_correction: 40 });
    proof {
        assert(v@[0].chunk_id@ =~= correction_table()[0].0);
        assert(v@[1].chunk_id@ =~= correction_table()[1].0);
    }
    v
}

fn tag_ends_with(a: &[u8; 4], b: &[u8; 4]) -> (r: bool)
    ensures
        r == ends_with(a@, b@),
{
    let mut i: usize = 0;
    while i < 4
        invariant
            i <= 4,
            a@.len() == 4 && b@.len() == 4,
            forall|k: int| 0 <= k < i ==> a@[k] == b@[k],
        decreases 4 - i,
    {
        if a[i] != b[i] {
            assert(a@.subrange(0, 4)[i as int] != b@[i as int]);
            return false;
        }
        i = i + 1;
    }
    assert(a@.subrange(0, 4) =~= b@);
    true
}

/// The corrected payload size for a tag, from the correction table.
pub fn size_correction_for(chunk_id: &[u8; 4]) -> (r: Option<usize>)
    ensures
        r matches Some(n) ==> size_correction(chunk_id@) == Some(n as nat) && n <= u32::MAX,
        r is None ==> size_correction(chunk_id@) is None,
{
    let fixes = chunk_size_fixes();
    let mut i: usize = 0;
    while i < fixes.len()
        invariant
            i <= fixes@.len() == correction_table().len(),
            forall|k: int|
                0 <= k < fixes@.len() ==> (#[trigger] fixes@[k]).chunk_id@
                    == correction_table()[k].0 && fixes@[k].chunk_size_correction as nat
                    == correction_table()[k].1,
            size_correction(chunk_id@) == first_fix(correction_table(), chunk_id@, i as int),
        decreases fixes@.len() - i,
    {
        if tag_ends_with(&fixes[i].chunk_id, chunk_id) {
            return Some(fixes[i].chunk_size_correction);
        }
        i = i + 1;
    }
    None
}

/// The chunks that the walk of `b` from `off` yields cover all of it but fewer than four
/// trailing bytes: no byte is read twice and none between chunks is skipped.
pub proof fn lemma_walk_consumes_buffer(b: Seq<u8>, off: int)
    requires
        0 <= off <= b.len(),
        walk(b, off) is Some,
    ensures
        off + span(walk(b, off)->0) <= b.len() < off + span(walk(b, off)->0) + 4,
    decreases b.len() - off,
{
    if off + 4 > b.len() {
    } else {
        let size = effective_size(b, off);
        let next = off + 8 + size;
        lemma_walk_consumes_buffer(b, next);
        let c = (b.subrange(off, off + 4), b.subrange(off + 8, next));
        let rest = walk(b, next)->0;
        let all = walk(b, off)->0;
        assert(all == seq![c] + rest);
        assert(all.drop_first() =~= rest);
    }
}

/// Every chunk whose tag has an entry in the correction table has exactly the corrected
/// payload size, whatever its size field says.
pub proof fn lemma_walk_uses_corrections(b: Seq<u8>, off: int)
    requires
        0 <= off <= b.len(),
        walk(b, off) is Some,
    ensures
        forall|i: int|
            0 <= i < walk(b, off)->0.len() ==> match size_correction(
                (#[trigger] walk(b, off)->0[i]).0,
            ) {
                Some(n) => walk(b, off)->0[i].1.len() == n,
                None => true,
            },
    decreases b.len() - off,
{
    if off + 4 > b.len() {
    } else {
        let size = effective_size(b, off);
        let next = off + 8 + size;
        lemma_walk_uses_corrections(b, next);
        let c = (b.subrange(off, off + 4), b.subrange(off + 8, next));
        let rest = walk(b, next)->0;
        let all = walk(b, off)->0;
        assert(all == seq![c] + rest);
        assert forall|i: int| 0 <= i < all.len() implies match size_correction(
            (#[trigger] all[i]).0,
        ) {
            Some(n) => all[i].1.len() == n,
            None => true,
        } by {
            if i > 0 {
                assert(all[i] == rest[i - 1]);
            }
        }
    }
}

/// A found chunk lies in the sequence and its tag reads as the name looked for; every
/// earlier chunk's tag reads otherwise.
pub proof fn lemma_find_from(cs: Seq<ChunkView>, name: Seq<char>, i: int)
    requires
        0 <= i,
    ensures
        find_from(cs, name, i) matches Some(j) ==> i <= j < cs.len() && tag_name(cs[j].0) == Some(
            name,
        ) && forall|k: int| i <= k < j ==> tag_name(#[trigger] cs[k].0) != Some(name),
        find_from(cs, name, i) is None ==> forall|k: int|
            i <= k < cs.len() ==> tag_name(#[trigger] cs[k].0) != Some(name),
    decreases cs.len() - i,
{
    if i < cs.len() && tag_name(cs[i].0) != Some(name) {
        lemma_find_from(cs, name, i + 1);
    }
}

/// The payload of the first chunk whose tag reads as `name`.
pub open spec fn first_payload(cs: Seq<ChunkView>, name: Seq<char>) -> Seq<u8> {
    cs[find_chunk(cs, name)->0].1
}

/// Where chunk `i` of `cs` starts, for chunks laid out one after the other from `off`.
pub open spec fn chunk_start(cs: Seq<ChunkView>, off: int, i: int) -> int {
    off + span(cs.subrange(0, i))
}

/// The chunks of a walk lie one after the other in the buffer, in file order: chunk `i`
/// starts where the previous one ends, its tag is the four bytes there and its payload the
/// bytes after the size field.
pub proof fn lemma_walk_layout(b: Seq<u8>, off: int)
    requires
        0 <= off <= b.len(),
        walk(b, off) is Some,
    ensures
        forall|i: int|
            #![trigger walk(b, off)->0[i]]
            0 <= i < walk(b, off)->0.len() ==> walk(b, off)->0[i].0 == b.subrange(
                chunk_start(walk(b, off)->0, off, i),
                chunk_start(walk(b, off)->0, off, i) + 4,
            ) && walk(b, off)->0[i].1 == b.subrange(
                chunk_start(walk(b, off)->0, off, i) + 8,
                chunk_start(walk(b, off)->0, off, i) + 8 + walk(b, off)->0[i].1.len(),
            ),
    decreases b.len() - off,
{
    if off + 4 > b.len() {
    } else {
        let size = effective_size(b, off);
        let next = off + 8 + size;
        lemma_walk_layout(b, next);
        let c = (b.subrange(off, off + 4), b.subrange(off + 8, next));
        let rest = walk(b, next)->0;
        let cs = walk(b, off)->0;
        assert(cs == seq![c] + rest);
        assert forall|i: int| #![trigger cs[i]] 0 <= i < cs.len() implies cs[i].0 == b.subrange(
            chunk_start(cs, off, i),
            chunk_start(cs, off, i) + 4,
        ) && cs[i].1 == b.subrange(
            chunk_start(cs, off, i) + 8,
            chunk_start(cs, off, i) + 8 + cs[i].1.len(),
        ) by {
            if i == 0 {
                assert(cs.subrange(0, 0).len() == 0);
            } else {
                assert(cs[i] == rest[i - 1]);
                assert(cs.subrange(0, i).drop_first() =~= rest.subrange(0, i - 1));
                assert(cs.subrange(0, i)[0] == c);
                assert(chunk_start(cs, off, i) == chunk_start(rest, next, i - 1));
            }
        }
    }
}

/// A chunk whose tag has a corrected size takes exactly that many payload bytes, whatever
/// its size field says, and the next chunk starts right after them.
pub proof fn lemma_corrected_chunk(b: Seq<u8>, off: int, c: nat)
    requires
        0 <= off,
        off + 8 + c <= b.len(),
        size_correction(b.subrange(off, off + 4)) == Some(c),
    ensures
        walk(b, off) == prepend(
            seq![(b.subrange(off, off + 4), b.subrange(off + 8, off + 8 + c))],
            walk(b, off + 8 + c),
        ),
{
}

/// Reversing a tag twice gives it back.
pub proof fn lemma_reverse_twice<A>(s: Seq<A>)
    ensures
        reversed(reversed(s)) == s,
{
    assert(reversed(reversed(s)) =~= s);
}

/// The index of the first chunk whose tag reads as `chunk_type`.
pub fn position_of_type(chunks: &Vec<Chunk>, chunk_type: &str) -> (r: Option<usize>)
    ensures
        r matches Some(i) ==> find_chunk(chunk_views(chunks@), chunk_type@) == Some(i as int)
            && i < chunks@.len(),
        r is None ==> find_chunk(chunk_views(chunks@), chunk_type@) is None,
{
    let ghost cs = chunk_views(chunks@);
    let mut i: usize = 0;
    while i < chunks.len()
        invariant
            i <= chunks@.len(),
            cs == chunk_views(chunks@),
            find_chunk(cs, chunk_type@) == find_from(cs, chunk_type@, i as int),
        decreases chunks@.len() - i,
    {
        if chunks[i].is_type(chunk_type) {
            return Some(i);
        }
        i = i + 1;
    }
    None
}

/// The first chunk whose tag reads as `chunk_type`, if any.
pub fn get_chunk_of_type_optionally<'a>(chunks: &'a Vec<Chunk>, chunk_type: &str) -> (r: Option<
    &'a Chunk,
>)
    ensures
        r matches Some(c) ==> exists|i: int|
            find_chunk(chunk_views(chunks@), chunk_type@) == Some(i) && c == chunks@[i],
        r is None ==> find_chunk(chunk_views(chunks@), chunk_type@) is None,
{
    match position_of_type(chunks, chunk_type) {
        Some(i) => Some(&chunks[i]),
        None => None,
    }
}

/// The first chunk whose tag reads as `chunk_type`; a missing one is an error.
pub fn get_chunk_of_type_checked<'a>(chunks: &'a Vec<Chunk>, chunk_type: &str) -> (r: Result<
    &'a Chunk,
    DecodeError,
>)
    ensures
        r matches Ok(c) ==> exists|i: int|
            find_chunk(chunk_views(chunks@), chunk_type@) == Some(i) && c == chunks@[i],
        r is Err <==> find_chunk(chunk_views(chunks@), chunk_type@) is None,
        r matches Err(e) ==> e == DecodeError::MissingChunk,
{
    match position_of_type(chunks, chunk_type) {
        Some(i) => Ok(&chunks[i]),
        None => Err(DecodeError::MissingChunk),
    }
}

/// The first chunk whose tag reads as `chunk_type`, for a tag that the caller knows is there.
pub fn get_chunk_of_type<'a>(chunks: &'a Vec<Chunk>, chunk_type: &str) -> (r: &'a Chunk)
    requires
        find_chunk(chunk_views(chunks@), chunk_type@) is Some,
    ensures
        r == chunks@[find_chunk(chunk_views(chunks@), chunk_type@)->0],
{
    let i = position_of_type(chunks, chunk_type);
    match i {
        Some(i) => &chunks[i],
        None => &chunks[0],
    }
}

} // verus!
