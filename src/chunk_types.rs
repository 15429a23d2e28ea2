use vstd::prelude::*;
use crate::byte_utils::{
    le_u16, read_u16, decoded_pieces, get_null_terminated_strings, le_u32, nul_pieces, read_u32,
    all_utf8, string_views,
};
use crate::chunk::{tag_name, Chunk};
use crate::error::DecodeError;

verus! {

/// The chunk's tag reads as `name`.
pub open spec fn tagged(c: &Chunk, name: Seq<char>) -> bool {
    tag_name(c.id@) == Some(name)
}

/// The `u32` values of a payload, four bytes each.
pub open spec fn u32_values(d: Seq<u8>) -> Seq<u32> {
    Seq::new(d.len() / 4, |i: int| le_u32(d, 4 * i))
}

/// The strings of a sequence without the empty ones, in order.
pub open spec fn non_empty(s: Seq<Seq<char>>) -> Seq<Seq<char>>
    decreases s.len(),
{
    if s.len() == 0 {
        s
    } else if s.last().len() == 0 {
        non_empty(s.drop_last())
    } else {
        non_empty(s.drop_last()).push(s.last())
    }
}

/// The strings of a payload's zero-terminated string table.
pub open spec fn table_strings(d: Seq<u8>) -> Seq<Seq<char>> {
    decoded_pieces(nul_pieces(d))
}

/// `m` is what the payload `d` of the world header decodes to.
pub open spec fn mphd_decoded(m: ChunkMphd, d: Seq<u8>) -> bool {
    m.flags == le_u32(d, 0) && m.something == le_u32(d, 4)
        && m.unused@ == d.subrange(8, 14)
}

/// `m` is what the payload `d` of the tile grid decodes to.
pub open spec fn main_decoded(m: ChunkMain, d: Seq<u8>) -> bool {
    m.0@.len() == 4096 && forall|i: int|
        0 <= i < 4096 ==> (#[trigger] m.0@[i]).flags == le_u32(d, 8 * i)
            && m.0@[i].area == le_u32(d, 8 * i + 4)
}

/// `m` is what the payload `d` of the map tile header decodes to.
pub open spec fn mhdr_decoded(m: ChunkMhdr, d: Seq<u8>) -> bool {
    &&& m.flags == le_u32(d, 0)
    &&& m.offs_mcin == le_u32(d, 4)
    &&& m.offs_mtex == le_u32(d, 8)
    &&& m.offs_mmdx == le_u32(d, 12)
    &&& m.offs_mmid == le_u32(d, 16)
    &&& m.offs_mwmo == le_u32(d, 20)
    &&& m.offs_mwid == le_u32(d, 24)
    &&& m.offs_mddf == le_u32(d, 28)
    &&& m.offs_modf == le_u32(d, 32)
}

/// `v` is what the payload `d` of the cell index decodes to.
pub open spec fn mcin_decoded(v: Seq<ChunkMcin>, d: Seq<u8>) -> bool {
    v.len() == 256 && forall|i: int|
        0 <= i < 256 ==> {
            let e = #[trigger] v[i];
            &&& e.offs_mcnk == le_u32(d, 16 * i)
            &&& e.size == le_u32(d, 16 * i + 4)
            &&& e.flags == le_u32(d, 16 * i + 8)
            &&& e.async_id == le_u32(d, 16 * i + 12)
        }
}

/// `m` is what the payload `d` of the root header decodes to.
pub open spec fn mohd_decoded(m: ChunkMohd, d: Seq<u8>) -> bool {
    &&& m.n_materials == le_u32(d, 0)
    &&& m.n_groups == le_u32(d, 4)
    &&& m.n_ports == le_u32(d, 8)
    &&& m.n_lights == le_u32(d, 12)
    &&& m.n_models == le_u32(d, 16)
    &&& m.n_doodads == le_u32(d, 20)
    &&& m.n_doodad_sets == le_u32(d, 24)
    &&& m.ambient_color == le_u32(d, 28)
    &&& m.wmo_id == le_u32(d, 32)
    &&& m.bounding_box_corner_1@ == seq![le_u32(d, 36), le_u32(d, 40), le_u32(d, 44)]
    &&& m.bounding_box_corner_2@ == seq![le_u32(d, 48), le_u32(d, 52), le_u32(d, 56)]
}

/// `m` is what the payload `d` of the placement decodes to.
pub open spec fn modf_decoded(m: ChunkModf, d: Seq<u8>) -> bool {
    &&& m.id == le_u32(d, 0)
    &&& m.dynamic_id == le_u32(d, 4)
    &&& m.pos@ == seq![le_u32(d, 8), le_u32(d, 12), le_u32(d, 16)]
    &&& m.orientation@ == seq![le_u32(d, 20), le_u32(d, 24), le_u32(d, 28)]
    &&& m.bounding_box@ == seq![le_u32(d, 32), le_u32(d, 36), le_u32(d, 40), le_u32(d, 44), le_u32(d, 48), le_u32(d, 52)]
    &&& m.flags == le_u16(d, 56)
    &&& m.doodad_set_index == le_u16(d, 58)
    &&& m.name_set == le_u16(d, 60)
    &&& m.padding == le_u16(d, 62)
}

/// `m` is what the payload `d` of the doodad placements decodes to.
pub open spec fn mddf_decoded(m: ChunkMddf, d: Seq<u8>) -> bool {
    m.0@.len() == d.len() / 36 && forall|i: int|
        0 <= i < m.0@.len() ==> mddf_item_at(d, 36 * i, #[trigger] m.0@[i])
}

/// `m` is what the payload `d` of the group descriptions decodes to.
pub open spec fn mogi_decoded(m: ChunkMogi, d: Seq<u8>) -> bool {
    m.0@.len() == d.len() / 32 && forall|i: int|
        0 <= i < m.0@.len() ==> mogi_item_at(d, 32 * i, #[trigger] m.0@[i])
}

fn expect_type(c: &Chunk, name: &str) -> (r: Result<(), DecodeError>)
    ensures
        r is Ok <==> tag_name(c.id@) == Some(name@),
        r matches Err(e) ==> e == DecodeError::SchemaMismatch,
{
    if c.is_type(name) {
        Ok(())
    } else {
        Err(DecodeError::SchemaMismatch)
    }
}

/// Keeps the non-empty strings, in order.
pub fn drop_empty(v: Vec<String>) -> (r: Vec<String>)
    ensures
        string_views(r@) == non_empty(string_views(v@)),
{
    let mut out: Vec<String> = Vec::new();
    let mut i: usize = 0;
    while i < v.len()
        invariant
            i <= v@.len(),
            string_views(out@) == non_empty(string_views(v@).subrange(0, i as int)),
        decreases v@.len() - i,
    {
        let ghost prev = string_views(v@).subrange(0, i as int);
        let ghost next = string_views(v@).subrange(0, i + 1);
        assert(next.drop_last() =~= prev);
        assert(next.last() == v@[i as int]@);
        if v[i].as_str().is_empty() {
        } else {
            out.push(v[i].clone());
            assert(string_views(out@) =~= non_empty(prev).push(v@[i as int]@));
        }
        i = i + 1;
    }
    assert(string_views(v@).subrange(0, v@.len() as int) =~= string_views(v@));
    out
}

fn u32_array(d: &Vec<u8>) -> (r: Vec<u32>)
    requires
        d@.len() % 4 == 0,
    ensures
        r@ == u32_values(d@),
{
    let mut out: Vec<u32> = Vec::new();
    let len = d.len();
    let mut off: usize = 0;
    let ghost mut i: int = 0;
    while len - off >= 4
        invariant
            len == d@.len(),
            d@.len() % 4 == 0,
            off <= len,
            off == 4 * i,
            0 <= i <= d@.len() / 4,
            out@ == u32_values(d@).subrange(0, i),
        decreases len - off,
    {
        out.push(read_u32(d, off));
        off = off + 4;
        proof {
            i = i + 1;
        }
        assert(out@ =~= u32_values(d@).subrange(0, i));
    }
    assert(i == d@.len() / 4);
    assert(out@ =~= u32_values(d@));
    out
}

/// The format version of a file.
#[derive(Debug)]
pub struct ChunkMver {
    pub map_version: u32,
}

impl ChunkMver {
    /// Decodes a version chunk: four bytes.
    pub fn from_chunk(chunk: &Chunk) -> (r: Result<ChunkMver, DecodeError>)
        requires
            chunk.wf(),
        ensures
            r is Ok <==> tagged(chunk, "MVER"@) && chunk.size == 4,
            r matches Ok(m) ==> m.map_version == le_u32(chunk.data@, 0),
            r matches Err(e) ==> e == DecodeError::SchemaMismatch,
    {
        expect_type(chunk, "MVER")?;
        if chunk.size != 4 {
            return Err(DecodeError::SchemaMismatch);
        }
        Ok(ChunkMver { map_version: read_u32(&chunk.data, 0) })
    }
}

/// The header of a world table file.
#[derive(Debug)]
pub struct ChunkMphd {
    pub flags: u32,
    pub something: u32,
    pub unused: [u8; 6],
}

impl ChunkMphd {
    /// Decodes a world header chunk: 32 bytes.
    pub fn from_chunk(c: &Chunk) -> (r: Result<ChunkMphd, DecodeError>)
        requires
            c.wf(),
        ensures
            r is Ok <==> tagged(c, "MPHD"@) && c.size == 32,
            r matches Ok(m) ==> mphd_decoded(m, c.data@),
            r matches Err(e) ==> e == DecodeError::SchemaMismatch,
    {
        expect_type(c, "MPHD")?;
        if c.size != 32 {
            return Err(DecodeError::SchemaMismatch);
        }
        let d = &c.data;
        let unused = [d[8], d[9], d[10], d[11], d[12], d[13]];
        assert(unused@ =~= d@.subrange(8, 14));
        Ok(ChunkMphd { flags: read_u32(d, 0), something: read_u32(d, 4), unused })
    }
}

/// One cell of the world's 64 by 64 tile grid.
#[derive(Debug)]
pub struct ChunkMainItem {
    pub flags: u32,
    pub area: u32,
}

/// The world's tile grid, row by row.
#[derive(Debug)]
pub struct ChunkMain(pub Vec<ChunkMainItem>);

impl ChunkMain {
    /// Decodes the tile grid: 4096 cells of eight bytes.
    pub fn from_chunk(c: &Chunk) -> (r: Result<ChunkMain, DecodeError>)
        requires
            c.wf(),
        ensures
            r is Ok <==> tagged(c, "MAIN"@) && c.size == 32768,
            r matches Ok(m) ==> main_decoded(m, c.data@),
            r matches Err(e) ==> e == DecodeError::SchemaMismatch,
    {
        expect_type(c, "MAIN")?;
        if c.size != 32768 {
            return Err(DecodeError::SchemaMismatch);
        }
        let d = &c.data;
        let mut items: Vec<ChunkMainItem> = Vec::new();
        let mut i: usize = 0;
        while i < 4096
            invariant
                i <= 4096,
                d@.len() == 32768,
                items@.len() == i,
                forall|k: int|
                    0 <= k < i ==> (#[trigger] items@[k]).flags == le_u32(d@, 8 * k)
                        && items@[k].area == le_u32(d@, 8 * k + 4),
            decreases 4096 - i,
        {
            let flags = read_u32(d, 8 * i);
            let area = read_u32(d, 8 * i + 4);
            items.push(ChunkMainItem { flags, area });
            i = i + 1;
        }
        Ok(ChunkMain(items))
    }
}

/// The header of a map tile: offsets of its sub-chunks.
#[derive(Debug)]
pub struct ChunkMhdr {
    pub flags: u32,
    pub offs_mcin: u32,
    pub offs_mtex: u32,
    pub offs_mmdx: u32,
    pub offs_mmid: u32,
    pub offs_mwmo: u32,
    pub offs_mwid: u32,
    pub offs_mddf: u32,
    pub offs_modf: u32,
}

impl ChunkMhdr {
    /// Decodes a map tile header: 64 bytes, of which the first nine words are read.
    pub fn from_chunk(c: &Chunk) -> (r: Result<ChunkMhdr, DecodeError>)
        requires
            c.wf(),
        ensures
            r is Ok <==> tagged(c, "MHDR"@) && c.size == 64,
            r matches Ok(m) ==> mhdr_decoded(m, c.data@),
            r matches Err(e) ==> e == DecodeError::SchemaMismatch,
    {
        expect_type(c, "MHDR")?;
        if c.size != 64 {
            return Err(DecodeError::SchemaMismatch);
        }
        let d = &c.data;
        Ok(
            ChunkMhdr {
                flags: read_u32(d, 0),
                offs_mcin: read_u32(d, 4),
                offs_mtex: read_u32(d, 8),
                offs_mmdx: read_u32(d, 12),
                offs_mmid: read_u32(d, 16),
                offs_mwmo: read_u32(d, 20),
                offs_mwid: read_u32(d, 24),
                offs_mddf: read_u32(d, 28),
                offs_modf: read_u32(d, 32),
            },
        )
    }
}

/// Where one of a map tile's 256 cells lies.
#[derive(Debug)]
pub struct ChunkMcin {
    pub offs_mcnk: u32,
    pub size: u32,
    pub flags: u32,
    pub async_id: u32,
}

impl ChunkMcin {
    /// Decodes the cell index: 256 entries of sixteen bytes.
    pub fn from_chunk(c: &Chunk) -> (r: Result<Vec<ChunkMcin>, DecodeError>)
        requires
            c.wf(),
        ensures
            r is Ok <==> tagged(c, "MCIN"@) && c.size == 4096,
            r matches Ok(v) ==> mcin_decoded(v@, c.data@),
            r matches Err(e) ==> e == DecodeError::SchemaMismatch,
    {
        expect_type(c, "MCIN")?;
        if c.size != 4096 {
            return Err(DecodeError::SchemaMismatch);
        }
        let d = &c.data;
        let mut items: Vec<ChunkMcin> = Vec::new();
        let mut i: usize = 0;
        while i < 256
            invariant
                i <= 256,
                d@.len() == 4096,
                items@.len() == i,
                forall|k: int|
                    0 <= k < i ==> {
                        let e = #[trigger] items@[k];
                        &&& e.offs_mcnk == le_u32(d@, 16 * k)
                        &&& e.size == le_u32(d@, 16 * k + 4)
                        &&& e.flags == le_u32(d@, 16 * k + 8)
                        &&& e.async_id == le_u32(d@, 16 * k + 12)
                    },
            decreases 256 - i,
        {
            let base = 16 * i;
            items.push(
                ChunkMcin {
                    offs_mcnk: read_u32(d, base),
                    size: read_u32(d, base + 4),
                    flags: read_u32(d, base + 8),
                    async_id: read_u32(d, base + 12),
                },
            );
            i = i + 1;
        }
        Ok(items)
    }
}

/// The texture paths of a map tile.
#[derive(Debug)]
pub struct ChunkMtex(pub Vec<String>);

/// The model paths of a map tile.
#[derive(Debug)]
pub struct ChunkMmdx(pub Vec<String>);

/// The world-map-object paths of a map tile or world table.
#[derive(Debug)]
pub struct ChunkMwmo(pub Vec<String>);

/// Offsets into the model path table.
#[derive(Debug)]
pub struct ChunkMmid(pub Vec<u32>);

/// Offsets into the world-map-object path table.
#[derive(Debug)]
pub struct ChunkMwid(pub Vec<u32>);

/// The texture paths of a world-map-object, without empty slots.
#[derive(Debug)]
pub struct ChunkMotx(pub Vec<String>);

/// The group names of a world-map-object, without empty slots.
#[derive(Debug)]
pub struct ChunkMogn(pub Vec<String>);

/// The doodad model paths of a world-map-object, without empty slots.
#[derive(Debug)]
pub struct ChunkModn(pub Vec<String>);

fn string_table(c: &Chunk, name: &str) -> (r: Result<Vec<String>, DecodeError>)
    ensures
        r is Ok <==> tag_name(c.id@) == Some(name@) && all_utf8(nul_pieces(c.data@)),
        r matches Ok(v) ==> string_views(v@) == table_strings(c.data@),
        r matches Err(e) ==> tag_name(c.id@) != Some(name@) ==> e == DecodeError::SchemaMismatch,
        r matches Err(e) ==> tag_name(c.id@) == Some(name@) ==> e == DecodeError::InvalidEncoding,
{
    expect_type(c, name)?;
    get_null_terminated_strings(&c.data)
}

impl ChunkMtex {
    /// Decodes the texture path table.
    pub fn from_chunk(c: &Chunk) -> (r: Result<ChunkMtex, DecodeError>)
        ensures
            r is Ok <==> tagged(c, "MTEX"@) && all_utf8(nul_pieces(c.data@)),
            r matches Ok(m) ==> string_views(m.0@) == table_strings(c.data@),
            r matches Err(e) ==> !tagged(c, "MTEX"@) ==> e == DecodeError::SchemaMismatch,
            r matches Err(e) ==> tagged(c, "MTEX"@) ==> e == DecodeError::InvalidEncoding,
    {
        Ok(ChunkMtex(string_table(c, "MTEX")?))
    }
}

impl ChunkMmdx {
    /// Decodes the model path table.
    pub fn from_chunk(c: &Chunk) -> (r: Result<ChunkMmdx, DecodeError>)
        ensures
            r is Ok <==> tagged(c, "MMDX"@) && all_utf8(nul_pieces(c.data@)),
            r matches Ok(m) ==> string_views(m.0@) == table_strings(c.data@),
            r matches Err(e) ==> !tagged(c, "MMDX"@) ==> e == DecodeError::SchemaMismatch,
            r matches Err(e) ==> tagged(c, "MMDX"@) ==> e == DecodeError::InvalidEncoding,
    {
        Ok(ChunkMmdx(string_table(c, "MMDX")?))
    }
}

impl ChunkMwmo {
    /// Decodes the world-map-object path table.
    pub fn from_chunk(c: &Chunk) -> (r: Result<ChunkMwmo, DecodeError>)
        ensures
            r is Ok <==> tagged(c, "MWMO"@) && all_utf8(nul_pieces(c.data@)),
            r matches Ok(m) ==> string_views(m.0@) == table_strings(c.data@),
            r matches Err(e) ==> !tagged(c, "MWMO"@) ==> e == DecodeError::SchemaMismatch,
            r matches Err(e) ==> tagged(c, "MWMO"@) ==> e == DecodeError::InvalidEncoding,
    {
        Ok(ChunkMwmo(string_table(c, "MWMO")?))
    }
}

impl ChunkMmid {
    /// Decodes the model offsets: one `u32` per four bytes.
    pub fn from_chunk(c: &Chunk) -> (r: Result<ChunkMmid, DecodeError>)
        ensures
            r is Ok <==> tagged(c, "MMID"@) && c.data@.len() % 4 == 0,
            r matches Ok(m) ==> m.0@ == u32_values(c.data@),
            r matches Err(e) ==> !tagged(c, "MMID"@) ==> e == DecodeError::SchemaMismatch,
            r matches Err(e) ==> tagged(c, "MMID"@) ==> e == DecodeError::MalformedChunk,
    {
        expect_type(c, "MMID")?;
        if c.data.len() % 4 != 0 {
            return Err(DecodeError::MalformedChunk);
        }
        Ok(ChunkMmid(u32_array(&c.data)))
    }
}

impl ChunkMwid {
    /// Decodes the world-map-object offsets: one `u32` per four bytes.
    pub fn from_chunk(c: &Chunk) -> (r: Result<ChunkMwid, DecodeError>)
        requires
            c.wf(),
        ensures
            r is Ok <==> tagged(c, "MWID"@) && c.size % 4 == 0,
            r matches Ok(m) ==> m.0@ == u32_values(c.data@),
            r matches Err(e) ==> e == DecodeError::SchemaMismatch,
    {
        expect_type(c, "MWID")?;
        if c.size % 4 != 0 {
            return Err(DecodeError::SchemaMismatch);
        }
        Ok(ChunkMwid(u32_array(&c.data)))
    }
}

impl ChunkMotx {
    /// Decodes the texture path table and leaves out the empty slots.
    pub fn from_chunk(c: &Chunk) -> (r: Result<ChunkMotx, DecodeError>)
        ensures
            r is Ok <==> tagged(c, "MOTX"@) && all_utf8(nul_pieces(c.data@)),
            r matches Ok(m) ==> string_views(m.0@) == non_empty(table_strings(c.data@)),
            r matches Err(e) ==> !tagged(c, "MOTX"@) ==> e == DecodeError::SchemaMismatch,
            r matches Err(e) ==> tagged(c, "MOTX"@) ==> e == DecodeError::InvalidEncoding,
    {
        let strings = string_table(c, "MOTX")?;
        Ok(ChunkMotx(drop_empty(strings)))
    }
}

impl ChunkMogn {
    /// Decodes the group name table and leaves out the empty slots.
    pub fn from_chunk(c: &Chunk) -> (r: Result<ChunkMogn, DecodeError>)
        ensures
            r is Ok <==> tagged(c, "MOGN"@) && all_utf8(nul_pieces(c.data@)),
            r matches Ok(m) ==> string_views(m.0@) == non_empty(table_strings(c.data@)),
            r matches Err(e) ==> !tagged(c, "MOGN"@) ==> e == DecodeError::SchemaMismatch,
            r matches Err(e) ==> tagged(c, "MOGN"@) ==> e == DecodeError::InvalidEncoding,
    {
        let strings = string_table(c, "MOGN")?;
        Ok(ChunkMogn(drop_empty(strings)))
    }
}

impl ChunkModn {
    /// Decodes the doodad path table and leaves out the empty slots.
    pub fn from_chunk(c: &Chunk) -> (r: Result<ChunkModn, DecodeError>)
        ensures
            r is Ok <==> tagged(c, "MODN"@) && all_utf8(nul_pieces(c.data@)),
            r matches Ok(m) ==> string_views(m.0@) == non_empty(table_strings(c.data@)),
            r matches Err(e) ==> !tagged(c, "MODN"@) ==> e == DecodeError::SchemaMismatch,
            r matches Err(e) ==> tagged(c, "MODN"@) ==> e == DecodeError::InvalidEncoding,
    {
        let strings = string_table(c, "MODN")?;
        Ok(ChunkModn(drop_empty(strings)))
    }
}

/// The header of a world-map-object root file. The bounding box corners are kept as the
/// bit patterns of their `f32` coordinates.
#[derive(Debug)]
pub struct ChunkMohd {
    pub n_materials: u32,
    pub n_groups: u32,
    pub n_ports: u32,
    pub n_lights: u32,
    pub n_models: u32,
    pub n_doodads: u32,
    pub n_doodad_sets: u32,
    pub ambient_color: u32,
    pub wmo_id: u32,
    pub bounding_box_corner_1: [u32; 3],
    pub bounding_box_corner_2: [u32; 3],
}

impl ChunkMohd {
    /// Decodes a root header: nine words, then two corners of three coordinates each.
    pub fn from_chunk(c: &Chunk) -> (r: Result<ChunkMohd, DecodeError>)
        ensures
            r is Ok <==> tagged(c, "MOHD"@) && c.data@.len() >= 60,
            r matches Ok(m) ==> mohd_decoded(m, c.data@),
            r matches Err(e) ==> !tagged(c, "MOHD"@) ==> e == DecodeError::SchemaMismatch,
            r matches Err(e) ==> tagged(c, "MOHD"@) ==> e == DecodeError::MalformedChunk,
    {
        expect_type(c, "MOHD")?;
        if c.data.len() < 60 {
            return Err(DecodeError::MalformedChunk);
        }
        let d = &c.data;
        let corner_1 = [read_u32(d, 36), read_u32(d, 40), read_u32(d, 44)];
        let corner_2 = [read_u32(d, 48), read_u32(d, 52), read_u32(d, 56)];
        assert(corner_1@ =~= seq![le_u32(d@, 36), le_u32(d@, 40), le_u32(d@, 44)]);
        assert(corner_2@ =~= seq![le_u32(d@, 48), le_u32(d@, 52), le_u32(d@, 56)]);
        Ok(
            ChunkMohd {
                n_materials: read_u32(d, 0),
                n_groups: read_u32(d, 4),
                n_ports: read_u32(d, 8),
                n_lights: read_u32(d, 12),
                n_models: read_u32(d, 16),
                n_doodads: read_u32(d, 20),
                n_doodad_sets: read_u32(d, 24),
                ambient_color: read_u32(d, 28),
                wmo_id: read_u32(d, 32),
                bounding_box_corner_1: corner_1,
                bounding_box_corner_2: corner_2,
            },
        )
    }
}

/// The single world-map-object that a world table places, when it has one. Coordinates are
/// kept as the bit patterns of their `f32` values.
#[derive(Debug)]
pub struct ChunkModf {
    pub id: u32,
    pub dynamic_id: u32,
    pub pos: [u32; 3],
    pub orientation: [u32; 3],
    pub bounding_box: [u32; 6],
    pub flags: u16,
    pub doodad_set_index: u16,
    pub name_set: u16,
    pub padding: u16,
}

impl ChunkModf {
    /// Decodes the placement chunk: 64 bytes, or none at all when nothing is placed.
    pub fn from_chunk(c: &Chunk) -> (r: Result<Option<ChunkModf>, DecodeError>)
        requires
            c.wf(),
        ensures
            r is Ok <==> tagged(c, "MODF"@) && (c.size == 64 || c.size == 0),
            r matches Ok(o) ==> (o is None <==> c.size == 0),
            r matches Ok(Some(m)) ==> modf_decoded(m, c.data@),
            r matches Err(e) ==> e == DecodeError::SchemaMismatch,
    {
        expect_type(c, "MODF")?;
        if c.size != 64 && c.size != 0 {
            return Err(DecodeError::SchemaMismatch);
        }
        if c.size == 0 {
            return Ok(None);
        }
        let d = &c.data;
        let pos = [read_u32(d, 8), read_u32(d, 12), read_u32(d, 16)];
        let orientation = [read_u32(d, 20), read_u32(d, 24), read_u32(d, 28)];
        let bounding_box = [read_u32(d, 32), read_u32(d, 36), read_u32(d, 40), read_u32(d, 44), read_u32(d, 48), read_u32(d, 52)];
        assert(pos@ =~= seq![le_u32(d@, 8), le_u32(d@, 12), le_u32(d@, 16)]);
        assert(orientation@ =~= seq![le_u32(d@, 20), le_u32(d@, 24), le_u32(d@, 28)]);
        assert(bounding_box@ =~= seq![le_u32(d@, 32), le_u32(d@, 36), le_u32(d@, 40), le_u32(d@, 44), le_u32(d@, 48), le_u32(d@, 52)]);
        Ok(
            Some(
                ChunkModf {
                    id: read_u32(d, 0),
                    dynamic_id: read_u32(d, 4),
                    pos,
                    orientation,
                    bounding_box,
                    flags: read_u16(d, 56),
                    doodad_set_index: read_u16(d, 58),
                    name_set: read_u16(d, 60),
                    padding: read_u16(d, 62),
                },
            ),
        )
    }
}

/// One doodad that a map tile places. Coordinates are kept as the bit patterns of their
/// `f32` values.
#[derive(Debug)]
pub struct ChunkMddfItem {
    pub mmid_entry: u32,
    pub unique_id: u32,
    pub position: [u32; 3],
    pub rotation: [u32; 3],
    pub scale: u16,
    pub flags: u16,
}

/// The doodads that a map tile places.
#[derive(Debug)]
pub struct ChunkMddf(pub Vec<ChunkMddfItem>);

/// `m` holds the 36-byte doodad record at `off`.
pub open spec fn mddf_item_at(d: Seq<u8>, off: int, m: ChunkMddfItem) -> bool {
    &&& m.mmid_entry == le_u32(d, off)
    &&& m.unique_id == le_u32(d, off + 4)
    &&& m.position@ == seq![le_u32(d, off + 8), le_u32(d, off + 12), le_u32(d, off + 16)]
    &&& m.rotation@ == seq![le_u32(d, off + 20), le_u32(d, off + 24), le_u32(d, off + 28)]
    &&& m.scale == le_u16(d, off + 32)
    &&& m.flags == le_u16(d, off + 34)
}

impl ChunkMddf {
    /// Decodes the doodad placements: records of 36 bytes.
    pub fn from_chunk(c: &Chunk) -> (r: Result<ChunkMddf, DecodeError>)
        requires
            c.wf(),
        ensures
            r is Ok <==> tagged(c, "MDDF"@) && c.size % 36 == 0,
            r matches Ok(m) ==> mddf_decoded(m, c.data@),
            r matches Err(e) ==> e == DecodeError::SchemaMismatch,
    {
        expect_type(c, "MDDF")?;
        if c.size % 36 != 0 {
            return Err(DecodeError::SchemaMismatch);
        }
        let d = &c.data;
        let len = d.len();
        let mut items: Vec<ChunkMddfItem> = Vec::new();
        let mut off: usize = 0;
        while len - off >= 36
            invariant
                len == d@.len(),
                d@.len() % 36 == 0,
                off <= len,
                off % 36 == 0,
                items@.len() == off / 36,
                forall|i: int| 0 <= i < items@.len() ==> mddf_item_at(d@, 36 * i, #[trigger] items@[i]),
            decreases len - off,
        {
            let position = [read_u32(d, off + 8), read_u32(d, off + 12), read_u32(d, off + 16)];
            let rotation = [read_u32(d, off + 20), read_u32(d, off + 24), read_u32(d, off + 28)];
            assert(position@ =~= seq![le_u32(d@, off + 8), le_u32(d@, off + 12), le_u32(d@, off + 16)]);
            assert(rotation@ =~= seq![le_u32(d@, off + 20), le_u32(d@, off + 24), le_u32(d@, off + 28)]);
            items.push(
                ChunkMddfItem {
                    mmid_entry: read_u32(d, off),
                    unique_id: read_u32(d, off + 4),
                    position,
                    rotation,
                    scale: read_u16(d, off + 32),
                    flags: read_u16(d, off + 34),
                },
            );
            assert(36 * ((items@.len() - 1) as int) == off);
            off = off + 36;
        }
        Ok(ChunkMddf(items))
    }
}

/// The description of one group of a world-map-object. The bounding box is kept as the bit
/// patterns of its `f32` coordinates.
#[derive(Debug)]
pub struct ChunkMogiItem {
    pub flags: u32,
    pub bounding_box: [u32; 6],
    pub name_offset: i32,
}

/// The group descriptions of a world-map-object root file.
#[derive(Debug)]
pub struct ChunkMogi(pub Vec<ChunkMogiItem>);

/// `m` holds the 32-byte group record at `off`.
pub open spec fn mogi_item_at(d: Seq<u8>, off: int, m: ChunkMogiItem) -> bool {
    &&& m.flags == le_u32(d, off)
    &&& m.bounding_box@ == seq![
        le_u32(d, off + 4),
        le_u32(d, off + 8),
        le_u32(d, off + 12),
        le_u32(d, off + 16),
        le_u32(d, off + 20),
        le_u32(d, off + 24),
    ]
    &&& m.name_offset == le_u32(d, off + 28) as i32
}

impl ChunkMogi {
    /// Decodes the group descriptions: records of 32 bytes.
    pub fn from_chunk(c: &Chunk) -> (r: Result<ChunkMogi, DecodeError>)
        ensures
            r is Ok <==> tagged(c, "MOGI"@) && c.data@.len() % 32 == 0,
            r matches Ok(m) ==> mogi_decoded(m, c.data@),
            r matches Err(e) ==> !tagged(c, "MOGI"@) ==> e == DecodeError::SchemaMismatch,
            r matches Err(e) ==> tagged(c, "MOGI"@) ==> e == DecodeError::MalformedChunk,
    {
        expect_type(c, "MOGI")?;
        if c.data.len() % 32 != 0 {
            return Err(DecodeError::MalformedChunk);
        }
        let d = &c.data;
        let len = d.len();
        let mut items: Vec<ChunkMogiItem> = Vec::new();
        let mut off: usize = 0;
        while len - off >= 32
            invariant
                len == d@.len(),
                d@.len() % 32 == 0,
                off <= len,
                off % 32 == 0,
                items@.len() == off / 32,
                forall|i: int| 0 <= i < items@.len() ==> mogi_item_at(d@, 32 * i, #[trigger] items@[i]),
            decreases len - off,
        {
            let bounding_box = [
                read_u32(d, off + 4),
                read_u32(d, off + 8),
                read_u32(d, off + 12),
                read_u32(d, off + 16),
                read_u32(d, off + 20),
                read_u32(d, off + 24),
            ];
            assert(bounding_box@ =~= seq![
                le_u32(d@, off + 4),
                le_u32(d@, off + 8),
                le_u32(d@, off + 12),
                le_u32(d@, off + 16),
                le_u32(d@, off + 20),
                le_u32(d@, off + 24),
            ]);
            items.push(
                ChunkMogiItem {
                    flags: read_u32(d, off),
                    bounding_box,
                    name_offset: read_u32(d, off + 28) as i32,
                },
            );
            assert(32 * ((items@.len() - 1) as int) == off);
            off = off + 32;
        }
        Ok(ChunkMogi(items))
    }
}

} // verus!
