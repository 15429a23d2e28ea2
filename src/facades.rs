use vstd::prelude::*;
use crate::byte_utils::{all_utf8, le_u32, nul_pieces, string_views};
use crate::chunk::{
    all_wf, chunk_views, find_chunk, ChunkView, first_payload, get_chunk_of_type_checked, lemma_find_from,
    get_chunk_of_type_optionally,
    position_of_type, walk, Chunk,
};
use crate::chunk_types::{
    main_decoded, mcin_decoded, mddf_decoded, mhdr_decoded, modf_decoded, mogi_decoded,
    mohd_decoded, mphd_decoded, u32_values,
    ChunkMain, ChunkMcin, ChunkMddf, ChunkMhdr, ChunkMmdx, ChunkMmid, ChunkModf, ChunkMphd,
    ChunkMtex, ChunkMwid,
};
use crate::chunk_types::{non_empty, table_strings, ChunkMogi, ChunkMohd, ChunkModn, ChunkMogn, ChunkMotx, ChunkMver, ChunkMwmo};
use crate::error::DecodeError;

verus! {

/// A chunk with tag `name` is among `chunks`.
pub open spec fn has_chunk(chunks: Seq<Chunk>, name: Seq<char>) -> bool {
    find_chunk(chunk_views(chunks), name) is Some
}

/// A chunk with tag `name` is among the chunk views.
pub open spec fn present(cs: Seq<ChunkView>, name: Seq<char>) -> bool {
    find_chunk(cs, name) is Some
}

/// The first chunk with tag `name` has a payload of `n` bytes.
pub open spec fn sized(cs: Seq<ChunkView>, name: Seq<char>, n: nat) -> bool {
    present(cs, name) && first_payload(cs, name).len() == n
}

/// The first chunk with tag `name` is a string table that is valid UTF-8.
pub open spec fn text_table(cs: Seq<ChunkView>, name: Seq<char>) -> bool {
    present(cs, name) && all_utf8(nul_pieces(first_payload(cs, name)))
}

/// The first chunk with tag `name` holds whole records of `n` bytes.
pub open spec fn records_of(cs: Seq<ChunkView>, name: Seq<char>, n: nat) -> bool {
    present(cs, name) && first_payload(cs, name).len() % n == 0
}

/// The chunks of a low-resolution world file decode.
pub open spec fn wdl_decodes(cs: Seq<ChunkView>) -> bool {
    text_table(cs, "MWMO"@)
}

/// The chunks of a world-map-object group file decode.
pub open spec fn group_decodes(cs: Seq<ChunkView>) -> bool {
    sized(cs, "MVER"@, 4)
}

/// The chunks of a world-map-object root file decode.
pub open spec fn root_decodes(cs: Seq<ChunkView>) -> bool {
    &&& sized(cs, "MVER"@, 4)
    &&& text_table(cs, "MOTX"@)
    &&& present(cs, "MOHD"@) && first_payload(cs, "MOHD"@).len() >= 60
    &&& text_table(cs, "MOGN"@)
    &&& text_table(cs, "MODN"@)
    &&& records_of(cs, "MOGI"@, 32)
}

/// The chunks of a world table decode; a placement chunk, if there is one, is empty or
/// 64 bytes.
pub open spec fn wdt_decodes(cs: Seq<ChunkView>) -> bool {
    &&& sized(cs, "MVER"@, 4)
    &&& sized(cs, "MPHD"@, 32)
    &&& sized(cs, "MAIN"@, 32768)
    &&& text_table(cs, "MWMO"@)
    &&& present(cs, "MODF"@) ==> (first_payload(cs, "MODF"@).len() == 64 || first_payload(
        cs,
        "MODF"@,
    ).len() == 0)
}

/// The chunks of a map tile decode.
pub open spec fn adt_decodes(cs: Seq<ChunkView>) -> bool {
    &&& sized(cs, "MVER"@, 4)
    &&& sized(cs, "MHDR"@, 64)
    &&& sized(cs, "MCIN"@, 4096)
    &&& text_table(cs, "MTEX"@)
    &&& text_table(cs, "MMDX"@)
    &&& records_of(cs, "MMID"@, 4)
    &&& text_table(cs, "MWMO"@)
    &&& records_of(cs, "MWID"@, 4)
    &&& records_of(cs, "MDDF"@, 36)
}

/// The first chunk with tag `name`.
pub open spec fn first_chunk(chunks: Seq<Chunk>, name: Seq<char>) -> Chunk {
    chunks[find_chunk(chunk_views(chunks), name)->0]
}

proof fn lemma_first_chunk(chunks: Seq<Chunk>, name: Seq<char>)
    requires
        has_chunk(chunks, name),
    ensures
        0 <= find_chunk(chunk_views(chunks), name)->0 < chunks.len(),
        first_chunk(chunks, name)@ == chunk_views(chunks)[find_chunk(chunk_views(chunks), name)->0],
        crate::chunk_types::tagged(&first_chunk(chunks, name), name),
        first_chunk(chunks, name).data@ == first_payload(chunk_views(chunks), name),
        has_chunk(chunks, name) == present(chunk_views(chunks), name),
        all_wf(chunks) ==> first_chunk(chunks, name).wf(),
{
    lemma_find_from(chunk_views(chunks), name, 0);
}

/// The version chunk of a file: the first `MVER` chunk, which must be four bytes.
pub fn get_mver_chunk(chunks: &Vec<Chunk>) -> (r: Result<ChunkMver, DecodeError>)
    requires
        all_wf(chunks@),
    ensures
        r is Ok <==> sized(chunk_views(chunks@), "MVER"@, 4),
        r matches Ok(m) ==> m.map_version == le_u32(first_payload(chunk_views(chunks@), "MVER"@), 0),
        r matches Err(e) ==> !present(chunk_views(chunks@), "MVER"@) ==> e == DecodeError::MissingChunk,
{
    let c = get_table(chunks, "MVER")?;
    ChunkMver::from_chunk(c)
}

/// The world-map-object path table of a file: the first `MWMO` chunk.
pub fn get_mwmo(chunks: &Vec<Chunk>) -> (r: Result<ChunkMwmo, DecodeError>)
    ensures
        r is Ok <==> text_table(chunk_views(chunks@), "MWMO"@),
        r matches Ok(m) ==> string_views(m.0@) == table_strings(first_payload(chunk_views(chunks@), "MWMO"@)),
        r matches Err(e) ==> !present(chunk_views(chunks@), "MWMO"@) ==> e == DecodeError::MissingChunk,
{
    let c = get_table(chunks, "MWMO")?;
    ChunkMwmo::from_chunk(c)
}

/// A low-resolution world file: the world-map-objects it places.
#[derive(Debug)]
pub struct WdlFile {
    pub mwmo: ChunkMwmo,
}

impl WdlFile {
    /// Decodes a low-resolution world file from its contents, as read from its path.
    pub fn from_path(file_content: &Vec<u8>) -> (r: Result<WdlFile, DecodeError>)
        ensures
            r is Ok <==> walk(file_content@, 0) is Some && wdl_decodes(walk(file_content@, 0)->0),
            walk(file_content@, 0) is None ==> r == Err::<WdlFile, DecodeError>(
                DecodeError::TruncatedChunk,
            ),
            walk(file_content@, 0) is Some && !present(walk(file_content@, 0)->0, "MWMO"@) ==> r
                == Err::<WdlFile, DecodeError>(DecodeError::MissingChunk),
            r matches Ok(w) ==> string_views(w.mwmo.0@) == table_strings(
                first_payload(walk(file_content@, 0)->0, "MWMO"@),
            ),
    {
        let chunks = Chunk::from_bytes(file_content)?;
        let mwmo = get_mwmo(&chunks)?;
        proof {
            lemma_first_chunk(chunks@, "MWMO"@);
        }
        Ok(WdlFile { mwmo })
    }
}

/// A world-map-object group file.
#[derive(Debug)]
pub struct WmoGroupFile {
    pub mver: ChunkMver,
}

/// A world-map-object root file: its version, textures, header, group names, group
/// descriptions and doodad models.
#[derive(Debug)]
pub struct WmoRootFile {
    pub mver: ChunkMver,
    pub motx: ChunkMotx,
    pub mohd: ChunkMohd,
    pub mogn: ChunkMogn,
    pub mogi: ChunkMogi,
    pub modn: ChunkModn,
}

/// A world-map-object file is either a root or one of its groups.
#[derive(Debug)]
pub enum WmoFileVariant {
    ROOT(WmoRootFile),
    GROUP(WmoGroupFile),
}

/// All of the chunks a root file must have are present.
pub open spec fn is_root_file(chunks: Seq<Chunk>) -> bool {
    &&& has_chunk(chunks, "MOMT"@)
    &&& has_chunk(chunks, "MOGI"@)
    &&& has_chunk(chunks, "MOSB"@)
    &&& has_chunk(chunks, "MOVV"@)
    &&& has_chunk(chunks, "MODN"@)
}

/// All of the chunks a group file must have are present.
pub open spec fn is_group_file(chunks: Seq<Chunk>) -> bool {
    &&& has_chunk(chunks, "MOGP"@)
    &&& has_chunk(chunks, "MOPY"@)
    &&& has_chunk(chunks, "MOVI"@)
    &&& has_chunk(chunks, "MONR"@)
    &&& has_chunk(chunks, "MOTV"@)
}

fn has_type(chunks: &Vec<Chunk>, name: &str) -> (r: bool)
    ensures
        r == has_chunk(chunks@, name@),
{
    position_of_type(chunks, name).is_some()
}

fn matches_root(chunks: &Vec<Chunk>) -> (r: bool)
    ensures
        r == is_root_file(chunks@),
{
    has_type(chunks, "MOMT") && has_type(chunks, "MOGI") && has_type(chunks, "MOSB") && has_type(
        chunks,
        "MOVV",
    ) && has_type(chunks, "MODN")
}

fn matches_group(chunks: &Vec<Chunk>) -> (r: bool)
    ensures
        r == is_group_file(chunks@),
{
    has_type(chunks, "MOGP") && has_type(chunks, "MOPY") && has_type(chunks, "MOVI") && has_type(
        chunks,
        "MONR",
    ) && has_type(chunks, "MOTV")
}

fn get_table<'a>(chunks: &'a Vec<Chunk>, name: &str) -> (r: Result<&'a Chunk, DecodeError>)
    ensures
        r is Ok <==> present(chunk_views(chunks@), name@),
        r matches Ok(c) ==> *c == first_chunk(chunks@, name@) && crate::chunk_types::tagged(c, name@)
            && c.data@ == first_payload(chunk_views(chunks@), name@) && (all_wf(chunks@) ==> c.wf()),
        r matches Err(e) ==> e == DecodeError::MissingChunk,
{
    let c = get_chunk_of_type_checked(chunks, name)?;
    proof {
        lemma_first_chunk(chunks@, name@);
    }
    Ok(c)
}

impl WmoGroupFile {
    /// Builds a group file from its chunks.
    pub fn new(chunks: Vec<Chunk>) -> (r: Result<WmoGroupFile, DecodeError>)
        requires
            all_wf(chunks@),
        ensures
            r is Ok <==> group_decodes(chunk_views(chunks@)),
            r matches Ok(g) ==> g.mver.map_version == le_u32(first_payload(chunk_views(chunks@), "MVER"@), 0),
    {
        let mver = get_mver_chunk(&chunks)?;
        Ok(WmoGroupFile { mver })
    }
}

impl WmoRootFile {
    /// Builds a root file from its chunks; each table comes from the first chunk of its tag.
    pub fn new(chunks: Vec<Chunk>) -> (r: Result<WmoRootFile, DecodeError>)
        requires
            all_wf(chunks@),
        ensures
            r is Ok <==> root_decodes(chunk_views(chunks@)),
            r matches Ok(w) ==> mohd_decoded(w.mohd, first_payload(chunk_views(chunks@), "MOHD"@)),
            r matches Ok(w) ==> mogi_decoded(w.mogi, first_payload(chunk_views(chunks@), "MOGI"@)),
            r is Ok ==> has_chunk(chunks@, "MVER"@) && has_chunk(chunks@, "MOTX"@) && has_chunk(
                chunks@,
                "MOGN"@,
            ) && has_chunk(chunks@, "MODN"@),
            r matches Ok(w) ==> w.mver.map_version == le_u32(first_payload(chunk_views(chunks@), "MVER"@), 0),
            r matches Ok(w) ==> w.mohd.n_groups == le_u32(first_payload(chunk_views(chunks@), "MOHD"@), 4),
            r matches Ok(w) ==> string_views(w.motx.0@) == non_empty(
                table_strings(first_payload(chunk_views(chunks@), "MOTX"@)),
            ),
            r matches Ok(w) ==> string_views(w.mogn.0@) == non_empty(
                table_strings(first_payload(chunk_views(chunks@), "MOGN"@)),
            ),
            r matches Ok(w) ==> string_views(w.modn.0@) == non_empty(
                table_strings(first_payload(chunk_views(chunks@), "MODN"@)),
            ),
            !has_chunk(chunks@, "MVER"@) ==> r == Err::<WmoRootFile, DecodeError>(
                DecodeError::MissingChunk,
            ),
    {
        let mver = get_mver_chunk(&chunks)?;
        let motx = ChunkMotx::from_chunk(get_table(&chunks, "MOTX")?)?;
        let mohd = ChunkMohd::from_chunk(get_table(&chunks, "MOHD")?)?;
        let mogn = ChunkMogn::from_chunk(get_table(&chunks, "MOGN")?)?;
        let modn = ChunkModn::from_chunk(get_table(&chunks, "MODN")?)?;
        let mogi = ChunkMogi::from_chunk(get_table(&chunks, "MOGI")?)?;
        Ok(WmoRootFile { mver, motx, mohd, mogn, mogi, modn })
    }
}

impl WmoFileVariant {
    /// Tells a root file from a group file by the chunks each must have: first the root's
    /// set, then the group's; a file with neither is an unknown variant.
    pub fn new(chunks: Vec<Chunk>) -> (r: Result<WmoFileVariant, DecodeError>)
        requires
            all_wf(chunks@),
        ensures
            is_root_file(chunks@) ==> (r is Ok <==> root_decodes(chunk_views(chunks@))),
            !is_root_file(chunks@) && is_group_file(chunks@) ==> (r is Ok <==> group_decodes(
                chunk_views(chunks@),
            )),
            r matches Ok(WmoFileVariant::ROOT(_)) ==> is_root_file(chunks@),
            r matches Ok(WmoFileVariant::GROUP(_)) ==> !is_root_file(chunks@) && is_group_file(
                chunks@,
            ),
            !is_root_file(chunks@) && !is_group_file(chunks@) ==> r == Err::<
                WmoFileVariant,
                DecodeError,
            >(DecodeError::UnknownVariant),
    {
        if matches_root(&chunks) {
            Ok(WmoFileVariant::ROOT(WmoRootFile::new(chunks)?))
        } else if matches_group(&chunks) {
            Ok(WmoFileVariant::GROUP(WmoGroupFile::new(chunks)?))
        } else {
            Err(DecodeError::UnknownVariant)
        }
    }
}

/// A world table: which map tiles exist, and the world-map-object placed when the map is
/// one object rather than terrain.
#[derive(Debug)]
pub struct WdtFile {
    pub mver: ChunkMver,
    pub mphd: ChunkMphd,
    pub main: ChunkMain,
    pub mwmo: ChunkMwmo,
    pub modf: Option<ChunkModf>,
}

/// The chunks a world table must have are present.
pub open spec fn is_world_table(chunks: Seq<Chunk>) -> bool {
    &&& has_chunk(chunks, "MVER"@)
    &&& has_chunk(chunks, "MPHD"@)
    &&& has_chunk(chunks, "MAIN"@)
    &&& has_chunk(chunks, "MWMO"@)
}

impl WdtFile {
    /// Builds a world table from its chunks; a placement chunk is optional.
    pub fn new(chunks: Vec<Chunk>) -> (r: Result<WdtFile, DecodeError>)
        requires
            all_wf(chunks@),
        ensures
            r is Ok <==> wdt_decodes(chunk_views(chunks@)),
            r matches Ok(w) ==> w.mver.map_version == le_u32(first_payload(chunk_views(chunks@), "MVER"@), 0),
            r matches Ok(w) ==> mphd_decoded(w.mphd, first_payload(chunk_views(chunks@), "MPHD"@)),
            r matches Ok(w) ==> main_decoded(w.main, first_payload(chunk_views(chunks@), "MAIN"@)),
            r matches Ok(w) ==> string_views(w.mwmo.0@) == table_strings(first_payload(chunk_views(chunks@), "MWMO"@)),
            r matches Ok(w) ==> (w.modf is Some <==> present(chunk_views(chunks@), "MODF"@) && first_payload(chunk_views(chunks@), "MODF"@).len() == 64),
            r matches Ok(w) ==> (w.modf matches Some(m) ==> modf_decoded(m, first_payload(chunk_views(chunks@), "MODF"@))),
            r is Ok ==> is_world_table(chunks@),
            r matches Ok(w) ==> w.mver.map_version == le_u32(first_payload(chunk_views(chunks@), "MVER"@), 0),
            r matches Ok(w) ==> (w.modf is Some ==> has_chunk(chunks@, "MODF"@)),
            !is_world_table(chunks@) ==> r is Err,
    {
        let mver = get_mver_chunk(&chunks)?;
        let mphd_chunk = get_table(&chunks, "MPHD")?;
        proof {
            lemma_first_chunk(chunks@, "MPHD"@);
        }
        let mphd = ChunkMphd::from_chunk(mphd_chunk)?;
        let main_chunk = get_table(&chunks, "MAIN")?;
        proof {
            lemma_first_chunk(chunks@, "MAIN"@);
        }
        let main = ChunkMain::from_chunk(main_chunk)?;
        let mwmo = get_mwmo(&chunks)?;
        let modf = match get_chunk_of_type_optionally(&chunks, "MODF") {
            Some(c) => {
                proof {
                    lemma_first_chunk(chunks@, "MODF"@);
                }
                ChunkModf::from_chunk(c)?
            },
            None => None,
        };
        Ok(WdtFile { mver, mphd, main, mwmo, modf })
    }

    /// Decodes a world table from its contents, as read from its path.
    pub fn from_path(file_content: &Vec<u8>) -> (r: Result<WdtFile, DecodeError>)
        ensures
            r is Ok <==> walk(file_content@, 0) is Some && wdt_decodes(walk(file_content@, 0)->0),
            walk(file_content@, 0) is None ==> r == Err::<WdtFile, DecodeError>(
                DecodeError::TruncatedChunk,
            ),
    {
        let chunks = Chunk::from_bytes(file_content)?;
        WdtFile::new(chunks)
    }
}

/// A map tile: its header, cell index, texture and model tables and doodad placements.
#[derive(Debug)]
pub struct AdtFile {
    pub mver: ChunkMver,
    pub mhdr: ChunkMhdr,
    pub mcin: Vec<ChunkMcin>,
    pub mtex: ChunkMtex,
    pub mmdx: ChunkMmdx,
    pub mmid: ChunkMmid,
    pub mwmo: ChunkMwmo,
    pub mwid: ChunkMwid,
    pub mddf: ChunkMddf,
}

/// The chunks a map tile must have are present.
pub open spec fn is_map_tile(chunks: Seq<Chunk>) -> bool {
    &&& has_chunk(chunks, "MVER"@)
    &&& has_chunk(chunks, "MHDR"@)
    &&& has_chunk(chunks, "MCIN"@)
    &&& has_chunk(chunks, "MTEX"@)
    &&& has_chunk(chunks, "MMDX"@)
    &&& has_chunk(chunks, "MMID"@)
    &&& has_chunk(chunks, "MWMO"@)
    &&& has_chunk(chunks, "MWID"@)
    &&& has_chunk(chunks, "MDDF"@)
}

impl AdtFile {
    /// Builds a map tile from its chunks; each table comes from the first chunk of its tag.
    pub fn new(chunks: Vec<Chunk>) -> (r: Result<AdtFile, DecodeError>)
        requires
            all_wf(chunks@),
        ensures
            r is Ok <==> adt_decodes(chunk_views(chunks@)),
            r matches Ok(a) ==> mhdr_decoded(a.mhdr, first_payload(chunk_views(chunks@), "MHDR"@)),
            r matches Ok(a) ==> mcin_decoded(a.mcin@, first_payload(chunk_views(chunks@), "MCIN"@)),
            r matches Ok(a) ==> string_views(a.mmdx.0@) == table_strings(first_payload(chunk_views(chunks@), "MMDX"@)),
            r matches Ok(a) ==> a.mmid.0@ == u32_values(first_payload(chunk_views(chunks@), "MMID"@)),
            r matches Ok(a) ==> a.mwid.0@ == u32_values(first_payload(chunk_views(chunks@), "MWID"@)),
            r matches Ok(a) ==> mddf_decoded(a.mddf, first_payload(chunk_views(chunks@), "MDDF"@)),
            r is Ok ==> is_map_tile(chunks@),
            r matches Ok(a) ==> a.mver.map_version == le_u32(first_payload(chunk_views(chunks@), "MVER"@), 0),
            r matches Ok(a) ==> string_views(a.mtex.0@) == table_strings(first_payload(chunk_views(chunks@), "MTEX"@)),
            r matches Ok(a) ==> string_views(a.mwmo.0@) == table_strings(first_payload(chunk_views(chunks@), "MWMO"@)),
            !is_map_tile(chunks@) ==> r is Err,
    {
        let mver = get_mver_chunk(&chunks)?;
        let c = get_table(&chunks, "MHDR")?;
        proof {
            lemma_first_chunk(chunks@, "MHDR"@);
        }
        let mhdr = ChunkMhdr::from_chunk(c)?;
        let c = get_table(&chunks, "MCIN")?;
        proof {
            lemma_first_chunk(chunks@, "MCIN"@);
        }
        let mcin = ChunkMcin::from_chunk(c)?;
        let mtex = ChunkMtex::from_chunk(get_table(&chunks, "MTEX")?)?;
        let mmdx = ChunkMmdx::from_chunk(get_table(&chunks, "MMDX")?)?;
        let mmid = ChunkMmid::from_chunk(get_table(&chunks, "MMID")?)?;
        let mwmo = get_mwmo(&chunks)?;
        let c = get_table(&chunks, "MWID")?;
        proof {
            lemma_first_chunk(chunks@, "MWID"@);
        }
        let mwid = ChunkMwid::from_chunk(c)?;
        let c = get_table(&chunks, "MDDF")?;
        proof {
            lemma_first_chunk(chunks@, "MDDF"@);
        }
        let mddf = ChunkMddf::from_chunk(c)?;
        Ok(AdtFile { mver, mhdr, mcin, mtex, mmdx, mmid, mwmo, mwid, mddf })
    }

    /// Decodes a map tile from its contents, as read from its path.
    pub fn from_path(file_content: &Vec<u8>) -> (r: Result<AdtFile, DecodeError>)
        ensures
            r is Ok <==> walk(file_content@, 0) is Some && adt_decodes(walk(file_content@, 0)->0),
            walk(file_content@, 0) is None ==> r == Err::<AdtFile, DecodeError>(
                DecodeError::TruncatedChunk,
            ),
    {
        let chunks = Chunk::from_bytes(file_content)?;
        AdtFile::new(chunks)
    }
}

} // verus!
