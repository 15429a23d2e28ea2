use wow_formats::byte_utils::{
    get_four_bytes, get_null_terminated_strings, get_reversed_string, get_string,
    get_string_null_terminated, get_u16, get_u32, get_i32,
};
use wow_formats::chunk::{
    get_chunk_of_type, get_chunk_of_type_checked, get_chunk_of_type_optionally, size_correction_for,
    Chunk,
};
use wow_formats::facades::{get_mver_chunk, AdtFile, WdlFile, WdtFile, WmoFileVariant};
use wow_formats::chunk_types::{ChunkMddf, ChunkModf, ChunkMohd, ChunkMain, ChunkMmid, ChunkMogn, ChunkMotx, ChunkMtex, ChunkMver, ChunkMwid};
use wow_formats::dbc::{get_dbc_header, load_dbc, DbcFile};
use wow_formats::dbc_tables::{
    load_spell_icon_dbc_from_path, load_talent_tab_dbc_from_path, AreaTableDbcRow, SpellIconDbcRow,
    SpellCategoryDbcRow, BattleMasterListDbcRow, MapDbcRow, load_light_from_path,
};
use wow_formats::error::{err, DecodeError};
use wow_formats::join::group_by;
use wow_formats::spell_flags::{has_bit_flag, SpellAttr0, SpellAttr7, SpellDispelType, SpellMechanic};
use wow_formats::wmo::get_group_names;
use wow_formats::spell_join::get_spells_join;
use wow_formats::spell_table::load_spell_dbc_from_path;
use wow_formats::talent_join::get_talents_join;
use wow_formats::m2::M2File;
use wow_formats::mpq_path::{MpqPath, MpqPathUtil};

fn chunk_bytes(tag: &[u8; 4], declared: u32, payload: &[u8]) -> Vec<u8> {
    let mut v = tag.to_vec();
    v.extend_from_slice(&declared.to_le_bytes());
    v.extend_from_slice(payload);
    v
}

#[test]
fn wmo_root_get_group_names() {
    let group_names = get_group_names(2, "test.wmo");
    assert_eq!(group_names, vec!["test_000.wmo", "test_001.wmo"]);

    let group_names = get_group_names(5, "test00.wmo");
    assert_eq!(
        group_names,
        vec!["test00_000.wmo", "test00_001.wmo", "test00_002.wmo", "test00_003.wmo", "test00_004.wmo"]
    );

    let group_names = get_group_names(5, "WMO/woRlD//whatever//test00.wmo");
    assert_eq!(
        group_names,
        vec!["test00_000.wmo", "test00_001.wmo", "test00_002.wmo", "test00_003.wmo", "test00_004.wmo"]
    );
}

#[test]
fn group_names_zero_groups_is_empty() {
    assert!(get_group_names(0, "test.wmo").is_empty());
}

#[test]
fn group_names_wide_indices() {
    let names = get_group_names(1001, "a/b.wmo");
    assert_eq!(names[99], "b_099.wmo");
    assert_eq!(names[100], "b_100.wmo");
    assert_eq!(names[1000], "b_1000.wmo");
}

#[test]
fn little_endian_reads() {
    let b = vec![1u8, 2, 3, 4, 0xff];
    assert_eq!(get_u32(&b, 0), Ok(0x0403_0201));
    assert_eq!(get_u16(&b, 1), Ok(0x0302));
    assert_eq!(get_u32(&b, 2), Err(DecodeError::OutOfRange));
    assert_eq!(get_i32(&vec![0xff, 0xff, 0xff, 0xff], 0), Ok(-1));
    assert_eq!(get_four_bytes(&b, 1), Ok([2, 3, 4, 0xff]));
    assert_eq!(get_u16(&b, usize::MAX), Err(DecodeError::OutOfRange));
}

#[test]
fn strings_from_bytes() {
    let b = b"REVMab\0cd\0\0ef".to_vec();
    assert_eq!(get_reversed_string(&b, 0, 4), Ok("MVER".to_string()));
    assert_eq!(get_string(&b, 4, 2), Ok("ab".to_string()));
    assert_eq!(get_string(&b, 10, 10), Err(DecodeError::OutOfRange));
    assert_eq!(get_string_null_terminated(&b, 4), Ok("ab".to_string()));
    assert_eq!(get_string_null_terminated(&b, 11), Ok("ef".to_string()));
    assert_eq!(get_string_null_terminated(&b, 13), Err(DecodeError::OutOfRange));
    assert_eq!(
        get_null_terminated_strings(&b),
        Ok(vec!["REVMab".to_string(), "cd".to_string(), "".to_string()])
    );
    assert_eq!(get_null_terminated_strings(&vec![0xff, 0]), Err(DecodeError::InvalidEncoding));
    assert_eq!(get_string(&vec![0xc3, 0x28], 0, 2), Err(DecodeError::InvalidEncoding));
}

#[test]
fn reversal_is_by_character() {
    // "é" is two bytes; reversing characters keeps it whole.
    let b = "aé".as_bytes().to_vec();
    assert_eq!(get_reversed_string(&b, 0, 3), Ok("éa".to_string()));
    let twice = get_reversed_string(&get_reversed_string(&b"REVM".to_vec(), 0, 4).unwrap().into_bytes(), 0, 4);
    assert_eq!(twice, Ok("REVM".to_string()));
}

#[test]
fn chunk_walk_consumes_buffer() {
    let mut buf = chunk_bytes(b"REVM", 4, &[18, 0, 0, 0]);
    buf.extend(chunk_bytes(b"XETM", 6, b"a\0bb\0\0"));
    let chunks = Chunk::from_bytes(&buf).unwrap();
    assert_eq!(chunks.len(), 2);
    let total: usize = chunks.iter().map(|c| 8 + c.size as usize).sum();
    assert_eq!(total, buf.len());
    assert_eq!(chunks[0].get_id_as_string(), Ok("MVER".to_string()));
    assert_eq!(chunks[1].data, b"a\0bb\0\0".to_vec());
}

#[test]
fn chunk_walk_edges() {
    assert_eq!(Chunk::from_bytes(&vec![]).unwrap().len(), 0);
    let mut buf = chunk_bytes(b"REVM", 4, &[1, 0, 0, 0]);
    buf.extend_from_slice(&[9, 9, 9]);
    assert_eq!(Chunk::from_bytes(&buf).unwrap().len(), 1);
    let truncated = chunk_bytes(b"REVM", 40, &[1, 0, 0, 0]);
    assert!(matches!(Chunk::from_bytes(&truncated), Err(DecodeError::TruncatedChunk)));
    let short_header = vec![b'R', b'E', b'V', b'M', 4, 0];
    assert!(matches!(Chunk::from_bytes(&short_header), Err(DecodeError::TruncatedChunk)));
}

#[test]
fn size_correction_table_overrides_declared_size() {
    assert_eq!(size_correction_for(b"PGOM"), Some(68));
    assert_eq!(size_correction_for(&[1, 0, 0, 0]), Some(40));
    assert_eq!(size_correction_for(b"REVM"), None);
    let payload = vec![7u8; 68];
    let mut buf = chunk_bytes(b"PGOM", 1000, &payload);
    buf.extend(chunk_bytes(b"YPOM", 2, &[1, 2]));
    let chunks = Chunk::from_bytes(&buf).unwrap();
    assert_eq!(chunks.len(), 2);
    assert_eq!(chunks[0].size, 68);
    assert_eq!(chunks[0].data.len(), 68);
    assert_eq!(chunks[1].get_id_as_string(), Ok("MOPY".to_string()));
}

#[test]
fn chunk_lookup_takes_first_match() {
    let mut buf = chunk_bytes(b"REVM", 4, &[1, 0, 0, 0]);
    buf.extend(chunk_bytes(b"REVM", 4, &[2, 0, 0, 0]));
    let chunks = Chunk::from_bytes(&buf).unwrap();
    let first = get_chunk_of_type_optionally(&chunks, "MVER").unwrap();
    assert_eq!(first.data, vec![1, 0, 0, 0]);
    assert_eq!(get_chunk_of_type(&chunks, "MVER").data, vec![1, 0, 0, 0]);
    assert!(get_chunk_of_type_optionally(&chunks, "REVM").is_none());
    assert!(matches!(get_chunk_of_type_checked(&chunks, "MOHD"), Err(DecodeError::MissingChunk)));
    assert_eq!(ChunkMver::from_chunk(first).unwrap().map_version, 1);
}

#[test]
fn typed_chunk_decoders() {
    let mver = Chunk { id: *b"REVM", size: 4, data: vec![18, 0, 0, 0] };
    assert_eq!(ChunkMver::from_chunk(&mver).unwrap().map_version, 18);
    let wrong = Chunk { id: *b"XETM", size: 4, data: vec![18, 0, 0, 0] };
    assert!(matches!(ChunkMver::from_chunk(&wrong), Err(DecodeError::SchemaMismatch)));
    let bad_size = Chunk { id: *b"REVM", size: 2, data: vec![18, 0] };
    assert!(matches!(ChunkMver::from_chunk(&bad_size), Err(DecodeError::SchemaMismatch)));

    let mtex = Chunk { id: *b"XETM", size: 6, data: b"a\0bb\0\0".to_vec() };
    assert_eq!(ChunkMtex::from_chunk(&mtex).unwrap().0, vec!["a", "bb", ""]);
    let motx = Chunk { id: *b"XTOM", size: 6, data: b"a\0bb\0\0".to_vec() };
    assert_eq!(ChunkMotx::from_chunk(&motx).unwrap().0, vec!["a", "bb"]);
    let mogn = Chunk { id: *b"NGOM", size: 3, data: vec![0xff, 0, 0] };
    assert!(matches!(ChunkMogn::from_chunk(&mogn), Err(DecodeError::InvalidEncoding)));

    let mmid = Chunk { id: *b"DIMM", size: 8, data: vec![1, 0, 0, 0, 2, 1, 0, 0] };
    assert_eq!(ChunkMmid::from_chunk(&mmid).unwrap().0, vec![1, 258]);
    let mwid = Chunk { id: *b"DIWM", size: 3, data: vec![1, 0, 0] };
    assert!(matches!(ChunkMwid::from_chunk(&mwid), Err(DecodeError::SchemaMismatch)));

    let mut grid = vec![0u8; 32768];
    grid[8] = 5;
    grid[12] = 9;
    let main = Chunk { id: *b"NIAM", size: 32768, data: grid };
    let m = ChunkMain::from_chunk(&main).unwrap();
    assert_eq!(m.0.len(), 4096);
    assert_eq!((m.0[1].flags, m.0[1].area), (5, 9));
}

fn record_file(records: &[Vec<u32>], heap: &[u8]) -> Vec<u8> {
    let width = records.first().map(|r| r.len() * 4).unwrap_or(0) as u32;
    let mut v = b"WDBC".to_vec();
    v.extend_from_slice(&(records.len() as u32).to_le_bytes());
    v.extend_from_slice(&(width / 4).to_le_bytes());
    v.extend_from_slice(&width.to_le_bytes());
    v.extend_from_slice(&(heap.len() as u32).to_le_bytes());
    for r in records {
        for c in r {
            v.extend_from_slice(&c.to_le_bytes());
        }
    }
    v.extend_from_slice(heap);
    v
}

#[test]
fn record_file_header_checks_total_size() {
    let bytes = record_file(&[vec![1, 1], vec![2, 6]], b"\0icon\0sword\0");
    let header = get_dbc_header(&bytes).unwrap();
    assert_eq!(header.record_count, 2);
    assert_eq!(header.record_size, 8);
    assert_eq!(bytes.len(), 20 + 2 * 8 + 12);
    assert!(DbcFile::from_bytes(bytes.clone()).is_ok());
    let mut longer = bytes.clone();
    longer.push(0);
    assert!(matches!(DbcFile::from_bytes(longer), Err(DecodeError::InvalidHeader)));
    assert!(matches!(DbcFile::from_bytes(bytes[..19].to_vec()), Err(DecodeError::OutOfRange)));
}

#[test]
fn record_columns() {
    let bytes = record_file(&[vec![7, 1, 0xdead_beef], vec![8, 2, 0]], b"\0icon\0");
    let file = DbcFile::from_bytes(bytes).unwrap();
    let mut it = file.iter();
    let row = it.next().unwrap();
    assert_eq!(row.get_number_column(1), Ok(7));
    assert_eq!(row.get_string_column(2), Ok("icon".to_string()));
    assert_eq!(row.get_column_bytes_hex(3), Ok("efbeadde".to_string()));
    assert_eq!(row.get_number_column_signed(3), Ok(0xdead_beefu32 as i32));
    assert_eq!(row.get_bool_column(2), Ok(true));
    assert_eq!(row.get_number_column(4), Err(DecodeError::ColumnOutOfRange));
    assert_eq!(row.get_number_column(0), Err(DecodeError::ColumnOutOfRange));
    let row2 = it.next().unwrap();
    assert_eq!(row2.get_number_column(1), Ok(8));
    assert_eq!(row2.get_bool_column(2), Ok(false));
    assert_eq!(row2.get_string_column(2), Ok("con".to_string()));
    assert!(it.next().is_none());
    assert_eq!(file.get_strings(), Ok(vec!["".to_string(), "icon".to_string()]));
    // the walk can be started again
    assert_eq!(file.iter().next().unwrap().get_number_column(1), Ok(7));
}

#[test]
fn string_column_past_end_of_file() {
    let bytes = record_file(&[vec![1, 50]], b"\0x\0");
    let file = DbcFile::from_bytes(bytes).unwrap();
    let row = file.iter().next().unwrap();
    assert_eq!(row.get_string_column(2), Err(DecodeError::OutOfRange));
}

#[test]
fn bool_column_is_exactly_one() {
    let bytes = record_file(&[vec![2]], b"");
    let file = DbcFile::from_bytes(bytes).unwrap();
    assert_eq!(file.iter().next().unwrap().get_bool_column(1), Ok(false));
}

#[test]
fn table_decode_all_or_nothing() {
    let ok = record_file(&[vec![1, 1], vec![2, 6]], b"\0icon\0sword\0");
    let dbc = load_spell_icon_dbc_from_path(ok).unwrap();
    assert_eq!(dbc.rows.len(), 2);
    assert_eq!((dbc.rows[1].id, dbc.rows[1].file_name.as_str()), (2, "sword"));
    // a bad heap offset in the second row fails the table
    let bad = record_file(&[vec![1, 1], vec![2, 60]], b"\0icon\0sword\0");
    assert!(matches!(load_spell_icon_dbc_from_path(bad), Err(DecodeError::OutOfRange)));
    // a record too narrow for the table's columns
    let narrow = record_file(&[vec![1, 1]], b"\0a\0");
    assert!(matches!(load_talent_tab_dbc_from_path(narrow), Err(DecodeError::ColumnOutOfRange)));
    let cats = load_dbc::<SpellCategoryDbcRow>(record_file(&[vec![4, 9]], b"")).unwrap();
    assert_eq!((cats.rows[0].id, cats.rows[0].flags), (4, 9));
}

#[test]
fn table_process_appends_rows() {
    let mut cols = vec![0u32; 29];
    cols[0] = 3;
    cols[1] = 1;
    cols[11] = 1;
    let bytes = record_file(&[cols], b"\0Elwynn\0");
    let file = DbcFile::from_bytes(bytes).unwrap();
    let mut rows: Vec<AreaTableDbcRow> = Vec::new();
    AreaTableDbcRow::process(&mut rows, &file).unwrap();
    assert_eq!(rows.len(), 1);
    assert_eq!(rows[0].id, 3);
    assert_eq!(rows[0].area_name, "Elwynn");
    let mut bml = vec![0u32; 32];
    bml[9] = 4;
    bml[11] = 1;
    let file = DbcFile::from_bytes(record_file(&[bml], b"\0A\0")).unwrap();
    let mut rows: Vec<BattleMasterListDbcRow> = Vec::new();
    BattleMasterListDbcRow::process(&mut rows, &file).unwrap();
    assert!(rows[0].is_arena());
}

#[test]
fn by_id_lookup_detects_duplicates() {
    let rows = vec![
        SpellIconDbcRow { id: 1, file_name: "a".to_string() },
        SpellIconDbcRow { id: 2, file_name: "b".to_string() },
    ];
    let lookup = group_by(rows).unwrap();
    assert_eq!(lookup.get(2).unwrap().file_name, "b");
    assert!(lookup.get(3).is_none());
    let dup = vec![
        SpellIconDbcRow { id: 1, file_name: "a".to_string() },
        SpellIconDbcRow { id: 1, file_name: "b".to_string() },
    ];
    assert!(matches!(group_by(dup), Err(DecodeError::DuplicateId)));
}

#[test]
fn attribute_flags() {
    assert!(has_bit_flag(0b110, 0b100));
    assert!(!has_bit_flag(0b010, 0b110));
    let a = SpellAttr0::from_mask(0x8000_0005);
    assert!(a.unk0 && a.on_next_swing && a.cant_cancel);
    assert!(!a.req_ammo);
    assert_eq!(a.to_mask(), 0x8000_0005);
    for v in [0u32, 1, 0xdead_beef, u32::MAX] {
        assert_eq!(SpellAttr7::from_mask(v).to_mask(), v);
    }
}

#[test]
fn enum_codes() {
    assert!(matches!(SpellDispelType::try_from(1), Ok(SpellDispelType::DispelMagic)));
    assert!(SpellDispelType::try_from(12).is_err());
    assert!(matches!(SpellMechanic::try_from(31), Ok(SpellMechanic::MechanicEnraged)));
    assert!(SpellMechanic::try_from(32).is_err());
}

#[test]
fn message_error() {
    let r: Result<u32, DecodeError> = err("boom".to_string());
    assert_eq!(r, Err(DecodeError::Message("boom".to_string())));
}

fn chunk(tag: &[u8; 4], payload: &[u8]) -> Chunk {
    Chunk { id: *tag, size: payload.len() as u32, data: payload.to_vec() }
}

#[test]
fn low_resolution_world_file() {
    let mut buf = chunk_bytes(b"REVM", 4, &[18, 0, 0, 0]);
    buf.extend(chunk_bytes(b"OMWM", 9, b"a.wmo\0b\0\0"));
    let wdl = WdlFile::from_path(&buf).unwrap();
    assert_eq!(wdl.mwmo.0, vec!["a.wmo", "b", ""]);
    let only_version = chunk_bytes(b"REVM", 4, &[18, 0, 0, 0]);
    assert!(matches!(WdlFile::from_path(&only_version), Err(DecodeError::MissingChunk)));
    assert!(matches!(WdlFile::from_path(&vec![1, 2, 3, 4, 5]), Err(DecodeError::TruncatedChunk)));
}

#[test]
fn wmo_variant_detection() {
    let mut mohd = vec![0u8; 64];
    mohd[4] = 3;
    let root_chunks = vec![
        chunk(b"REVM", &[17, 0, 0, 0]),
        chunk(b"XTOM", b"a.blp\0\0b.blp\0"),
        chunk(b"DHOM", &mohd),
        chunk(b"TMOM", &[]),
        chunk(b"NGOM", b"g\0"),
        chunk(b"IGOM", &[]),
        chunk(b"BSOM", &[]),
        chunk(b"VVOM", &[]),
        chunk(b"NDOM", b"m.m2\0"),
    ];
    match WmoFileVariant::new(root_chunks).unwrap() {
        WmoFileVariant::ROOT(root) => {
            assert_eq!(root.mver.map_version, 17);
            assert_eq!(root.mohd.n_groups, 3);
            assert_eq!(root.motx.0, vec!["a.blp", "b.blp"]);
            assert_eq!(root.mogn.0, vec!["g"]);
            assert_eq!(root.modn.0, vec!["m.m2"]);
        }
        WmoFileVariant::GROUP(_) => panic!("expected a root file"),
    }
    let group_chunks = vec![
        chunk(b"REVM", &[17, 0, 0, 0]),
        chunk(b"PGOM", &[0; 68]),
        chunk(b"YPOM", &[]),
        chunk(b"IVOM", &[]),
        chunk(b"RNOM", &[]),
        chunk(b"VTOM", &[]),
    ];
    assert!(matches!(WmoFileVariant::new(group_chunks), Ok(WmoFileVariant::GROUP(_))));
    let neither = vec![chunk(b"REVM", &[17, 0, 0, 0])];
    assert!(matches!(WmoFileVariant::new(neither), Err(DecodeError::UnknownVariant)));
}

#[test]
fn root_header_chunk() {
    let mut d = vec![0u8; 60];
    d[4] = 2;
    d[36] = 0x80;
    d[39] = 0x3f;
    let m = ChunkMohd::from_chunk(&chunk(b"DHOM", &d)).unwrap();
    assert_eq!(m.n_groups, 2);
    assert_eq!(f32::from_bits(m.bounding_box_corner_1[0]), f32::from_bits(0x3f00_0080));
    assert!(matches!(ChunkMohd::from_chunk(&chunk(b"DHOM", &d[..59])), Err(DecodeError::MalformedChunk)));
    assert!(matches!(ChunkMohd::from_chunk(&chunk(b"REVM", &d)), Err(DecodeError::SchemaMismatch)));
}

#[test]
fn group_names_ignore_directories() {
    assert_eq!(get_group_names(3, "x/y/root.wmo"), get_group_names(3, "root.wmo"));
    assert_eq!(get_group_names(1, "no_extension"), vec!["no_extension_000.wmo"]);
}

#[test]
fn version_lookup_in_chunks() {
    let chunks = vec![chunk(b"XETM", b""), chunk(b"REVM", &[9, 0, 0, 0])];
    assert_eq!(get_mver_chunk(&chunks).unwrap().map_version, 9);
    assert!(matches!(get_mver_chunk(&vec![]), Err(DecodeError::MissingChunk)));
}

fn spell_record(id: u32, name_offset: u32, dispel: u32, mechanic: u32, attr0: u32, effect_1: u32, category: u32, visual: u32) -> Vec<u32> {
    let mut c = vec![0u32; 234];
    c[0] = id;
    c[1] = category;
    c[2] = dispel;
    c[3] = mechanic;
    c[4] = attr0;
    c[71] = effect_1;
    c[131] = visual;
    c[136] = name_offset;
    c
}

#[test]
fn spell_join() {
    let spells = record_file(
        &[spell_record(10, 1, 1, 12, 0x41, 6, 3, 0), spell_record(11, 6, 0, 0, 0, 0, 99, 0)],
        b"\0Bolt\0Heal\0",
    );
    let dbc = load_spell_dbc_from_path(spells.clone()).unwrap();
    assert_eq!(dbc.rows[0].spell_name, "Bolt");
    assert_eq!(dbc.rows[1].spell_name, "Heal");
    let categories = record_file(&[vec![3, 7]], b"");
    let visuals = record_file(&[vec![0u32; 26]], b"");
    let joined = get_spells_join(spells.clone(), categories.clone(), visuals.clone(), None).unwrap();
    assert_eq!(joined.spells.len(), 2);
    let bolt = &joined.spells[0];
    assert_eq!(bolt.spell_name, "Bolt");
    assert!(matches!(bolt.dispel_type, SpellDispelType::DispelMagic));
    assert!(matches!(bolt.mechanic, SpellMechanic::MechanicStun));
    assert!(bolt.attr0.unk0 && bolt.attr0.passive && !bolt.attr0.req_ammo);
    assert_eq!(bolt.effect_1.unwrap().id, 6);
    assert!(bolt.effect_2.is_none());
    assert_eq!(bolt.spell_category.unwrap().flags, 7);
    assert!(joined.spells[1].spell_category.is_none());
    let one = get_spells_join(spells.clone(), categories.clone(), visuals.clone(), Some(11)).unwrap();
    assert_eq!(one.spells.len(), 1);
    assert_eq!(one.spells[0].id, 11);
    assert!(matches!(
        get_spells_join(spells.clone(), categories.clone(), visuals.clone(), Some(12)),
        Err(DecodeError::MissingRecord)
    ));
    let bad = record_file(&[spell_record(10, 1, 12, 0, 0, 0, 0, 0)], b"\0Bolt\0");
    assert!(matches!(get_spells_join(bad, categories, visuals, None), Err(DecodeError::SchemaMismatch)));
}

#[test]
fn talent_join() {
    let mut talent = vec![0u32; 20];
    talent[0] = 1;
    talent[1] = 41;
    talent[4] = 10;
    talent[6] = 11;
    let talents = record_file(&[talent], b"");
    let mut tab = vec![0u32; 24];
    tab[0] = 41;
    tab[1] = 1;
    tab[18] = 5;
    tab[23] = 1;
    let tabs = record_file(&[tab], b"\0Fire\0");
    let spells = record_file(
        &[spell_record(10, 1, 0, 0, 0, 0, 0, 0), spell_record(11, 6, 0, 0, 0, 0, 0, 0)],
        b"\0Bolt\0Heal\0",
    );
    let icons = record_file(&[vec![5, 1]], b"\0icon\0");
    let joined = get_talents_join(talents.clone(), tabs.clone(), spells.clone(), icons.clone(), None).unwrap();
    assert_eq!(joined.0.len(), 1);
    let row = &joined.0[0];
    assert_eq!(row.talent_tab.name, "Fire");
    assert_eq!(row.talent_tab.spell_icon.file_name, "icon");
    let ranks: Vec<(u32, &str)> = row.spell_rank_ids.iter().map(|s| (s.id, s.name.as_str())).collect();
    assert_eq!(ranks, vec![(10, "Bolt"), (11, "Heal")]);
    let no_icons = record_file(&[vec![6, 1]], b"\0icon\0");
    assert!(matches!(get_talents_join(talents, tabs, spells, no_icons, None), Err(DecodeError::MissingRecord)));
}

fn put_u32(b: &mut Vec<u8>, at: usize, v: u32) {
    b[at..at + 4].copy_from_slice(&v.to_le_bytes());
}

#[test]
fn model_file() {
    let mut b = vec![0u8; 0x200];
    b[0..4].copy_from_slice(b"MD20");
    put_u32(&mut b, 4, 264);
    put_u32(&mut b, 12, 0x1c0);
    b[0x1c0..0x1c6].copy_from_slice(b"model\0");
    // two textures: a table at 0x140, entries at +12 and +28
    put_u32(&mut b, 80, 3);
    put_u32(&mut b, 84, 0x140);
    put_u32(&mut b, 0x140 + 12, 0x1d0);
    put_u32(&mut b, 0x140 + 28, 0x1e0);
    put_u32(&mut b, 0x140 + 44, 0x1f0);
    b[0x1d0..0x1d6].copy_from_slice(b"a.BLP\0");
    b[0x1e0..0x1e6].copy_from_slice(b"b.txt\0");
    b[0x1f0..0x1f6].copy_from_slice(b"c.blp\0");
    // one particle at 0x170
    put_u32(&mut b, 0x128, 1);
    put_u32(&mut b, 0x12c, 0x170);
    put_u32(&mut b, 0x170, 77);
    put_u32(&mut b, 0x170 + 24, 5);
    put_u32(&mut b, 0x170 + 28, 0x1c0);
    b[0x170 + 40] = 2;
    b[0x170 + 41] = 3;
    let m = M2File::from_bytes(b.clone()).unwrap();
    assert_eq!(m.magic, "MD20");
    assert_eq!(m.version, 264);
    assert_eq!(m.name, "model");
    assert_eq!(m.textures, vec!["a.BLP", "c.blp"]);
    assert_eq!(m.n_particles, 1);
    let p = &m.particles[0];
    assert_eq!((p.particle_id, p.model_file_name.as_str(), p.particle_name.as_str()), (77, "model", ""));
    assert_eq!((p.blending_type, p.emitter_type), (2, 3));
    assert!(matches!(M2File::from_bytes(b[..0x100].to_vec()), Err(DecodeError::OutOfRange)));
}

#[test]
fn world_table_file() {
    let mut buf = chunk_bytes(b"REVM", 4, &[18, 0, 0, 0]);
    buf.extend(chunk_bytes(b"DHPM", 32, &[1; 32]));
    let mut grid = vec![0u8; 32768];
    grid[0] = 1;
    buf.extend(chunk_bytes(b"NIAM", 32768, &grid));
    buf.extend(chunk_bytes(b"OMWM", 0, &[]));
    buf.extend(chunk_bytes(b"FDOM", 0, &[]));
    let wdt = WdtFile::from_path(&buf).unwrap();
    assert_eq!(wdt.mver.map_version, 18);
    assert_eq!(wdt.mphd.flags, 0x0101_0101);
    assert_eq!(wdt.main.0[0].flags, 1);
    assert!(wdt.mwmo.0.is_empty());
    assert!(wdt.modf.is_none());
    let mut modf = vec![0u8; 64];
    modf[0] = 9;
    modf[56] = 3;
    let placed = ChunkModf::from_chunk(&chunk(b"FDOM", &modf)).unwrap().unwrap();
    assert_eq!((placed.id, placed.flags), (9, 3));
    assert!(matches!(ChunkModf::from_chunk(&chunk(b"FDOM", &[0; 10])), Err(DecodeError::SchemaMismatch)));
    let missing_grid = chunk_bytes(b"REVM", 4, &[18, 0, 0, 0]);
    assert!(matches!(WdtFile::from_path(&missing_grid), Err(DecodeError::MissingChunk)));
}

#[test]
fn map_tile_file() {
    let mut buf = chunk_bytes(b"REVM", 4, &[18, 0, 0, 0]);
    buf.extend(chunk_bytes(b"RDHM", 64, &[0; 64]));
    buf.extend(chunk_bytes(b"NICM", 4096, &[0; 4096]));
    buf.extend(chunk_bytes(b"XETM", 6, b"t.blp\0"));
    buf.extend(chunk_bytes(b"XDMM", 5, b"m.m2\0"));
    buf.extend(chunk_bytes(b"DIMM", 4, &[0; 4]));
    buf.extend(chunk_bytes(b"OMWM", 6, b"w.wmo\0"));
    buf.extend(chunk_bytes(b"DIWM", 4, &[0; 4]));
    let mut doodad = vec![0u8; 36];
    doodad[4] = 42;
    doodad[32] = 0x00;
    doodad[33] = 0x04;
    buf.extend(chunk_bytes(b"FDDM", 36, &doodad));
    let adt = AdtFile::from_path(&buf).unwrap();
    assert_eq!(adt.mcin.len(), 256);
    assert_eq!(adt.mtex.0, vec!["t.blp"]);
    assert_eq!(adt.mmdx.0, vec!["m.m2"]);
    assert_eq!(adt.mwmo.0, vec!["w.wmo"]);
    assert_eq!(adt.mddf.0.len(), 1);
    assert_eq!((adt.mddf.0[0].unique_id, adt.mddf.0[0].scale), (42, 1024));
    assert!(matches!(ChunkMddf::from_chunk(&chunk(b"FDDM", &[0; 35])), Err(DecodeError::SchemaMismatch)));
}

#[test]
fn archive_paths() {
    let p = MpqPath::from_string(&"  Textures/Minimap//foo.blp ".to_string()).unwrap();
    assert!(p.is_file());
    assert_eq!(p.to_string_path(), "TEXTURES\\MINIMAP\\FOO.BLP");
    let dir = p.parent();
    assert!(dir.is_dir());
    assert_eq!(dir.to_string_path(), "TEXTURES\\MINIMAP");
    let child = dir.push(&"bar.blp".to_string());
    assert_eq!(child.to_string_path(), "TEXTURES\\MINIMAP\\bar.blp");
    assert!(child.is_file());
    let root = MpqPath::from_string(&"/".to_string()).unwrap();
    assert!(root.is_root() && root.is_dir());
    assert!(MpqPath::from_string(&"   ".to_string()).is_none());
    assert!(MpqPath::from_string(&"\\\\".to_string()).is_none());
    assert!(MpqPath::from_string(&"a/b.c.d".to_string()).is_none());
    assert!(MpqPath::from_string(&"(listfile)".to_string()).unwrap().is_file());
    assert!(MpqPath::from_string(&"Data".to_string()).unwrap().is_dir());
}

#[test]
fn archive_path_matching() {
    let entry = MpqPath::from_string(&"a/b".to_string()).unwrap();
    let sources = vec![
        MpqPath::from_string(&"a/c".to_string()).unwrap(),
        MpqPath::from_string(&"A/B/c.blp".to_string()).unwrap(),
        MpqPath::from_string(&"x/b".to_string()).unwrap(),
        MpqPath::from_string(&"a".to_string()).unwrap(),
        MpqPath::from_string(&"a/b".to_string()).unwrap(),
    ];
    let kept: Vec<String> = MpqPathUtil::matching(entry, sources).iter().map(|p| p.to_string_path()).collect();
    assert_eq!(kept, vec!["A\\B\\C.BLP", "A\\B"]);
}

#[test]
fn float_columns_keep_their_bits() {
    let mut cols = vec![0u32; 66];
    cols[0] = 530;
    cols[1] = 1;
    cols[5] = 1;
    cols[23] = 1;
    cols[40] = 1;
    cols[58] = 1.5f32.to_bits();
    cols[65] = 40;
    let file = DbcFile::from_bytes(record_file(&[cols], b"\0Outland\0")).unwrap();
    let mut rows: Vec<MapDbcRow> = Vec::new();
    MapDbcRow::process(&mut rows, &file).unwrap();
    assert_eq!(rows[0].internal_name, "Outland");
    assert_eq!(f32::from_bits(rows[0].bg_map_icon_scale), 1.5);
    assert_eq!(rows[0].max_players, 40);
    let light = record_file(&[vec![1, 2, 0.25f32.to_bits(), 0, 0, 0, 0, 3, 4, 5, 6, 7]], b"");
    let lights = load_light_from_path(light).unwrap();
    assert_eq!(f32::from_bits(lights.rows[0].position[0]), 0.25);
    assert_eq!(lights.rows[0].params_death, 7);
}

#[test]
fn group_names_any_separator_and_case() {
    assert_eq!(get_group_names(2, "World\\wmo\\Dungeon\\x.WMO"), vec!["x_000.wmo", "x_001.wmo"]);
    assert_eq!(get_group_names(1, "a/b\\c.wmo"), get_group_names(1, "c.wmo"));
}

#[test]
fn header_read_checks_total_size() {
    let mut bytes = record_file(&[vec![1, 2]], b"\0");
    assert!(get_dbc_header(&bytes).is_ok());
    bytes.push(7);
    assert!(matches!(get_dbc_header(&bytes), Err(DecodeError::InvalidHeader)));
    assert!(matches!(get_dbc_header(&bytes[..10].to_vec()), Err(DecodeError::OutOfRange)));
}

#[test]
fn joins_reject_duplicate_ids() {
    let spells = record_file(&[spell_record(10, 1, 0, 0, 0, 0, 0, 0)], b"\0Bolt\0");
    let categories = record_file(&[vec![3, 7], vec![3, 8]], b"");
    let visuals = record_file(&[vec![0u32; 26]], b"");
    assert!(matches!(get_spells_join(spells, categories, visuals, None), Err(DecodeError::DuplicateId)));
}

#[test]
fn table_walk_keeps_rows_before_a_failure() {
    let bytes = record_file(&[vec![1, 1], vec![2, 60]], b"\0icon\0");
    let file = DbcFile::from_bytes(bytes).unwrap();
    let mut rows: Vec<SpellIconDbcRow> = vec![SpellIconDbcRow { id: 99, file_name: "x".to_string() }];
    assert!(load_dbc::<SpellIconDbcRow>(record_file(&[vec![1, 60]], b"\0")).is_err());
    assert!(wow_formats::dbc::process_rows(&mut rows, &file).is_err());
    assert_eq!(rows.len(), 2);
    assert_eq!((rows[0].id, rows[1].id, rows[1].file_name.as_str()), (99, 1, "icon"));
}

#[test]
fn zero_width_records_are_rejected() {
    let bytes = record_file(&[vec![], vec![]], b"");
    assert!(matches!(get_dbc_header(&bytes), Err(DecodeError::InvalidHeader)));
    assert!(matches!(load_talent_tab_dbc_from_path(bytes), Err(DecodeError::InvalidHeader)));
    let empty = record_file(&[], b"");
    assert_eq!(load_spell_icon_dbc_from_path(empty).unwrap().rows.len(), 0);
}
