use vstd::prelude::*;
use crate::dbc::{
    column_in_record, column_string, column_value, load_dbc, process_rows, record_count,
    record_view, all_records_ok, header_matches, header_ok, Dbc, DbcFile, DbcFileIteratorRow,
    DbcRowMapper, RowView, HEADER_SIZE,
};
use crate::error::DecodeError;

verus! {

/// A zone or sub-zone of a map.
#[derive(Debug)]
pub struct AreaTableDbcRow {
    pub id: u32,
    pub map_id: u32,
    pub area_id: u32,
    pub explore_flag: u32,
    pub flags: u32,
    pub sound_ambience_ref_id: u32,
    pub zone_music_ref_id: u32,
    pub zone_intro_music_ref_id: u32,
    pub area_level: u32,
    pub area_name: String,
    pub faction_group_id: u32,
}

impl DbcRowMapper for AreaTableDbcRow {
    open spec fn row_ok(r: RowView) -> bool {
        column_in_record(r.2, 29) && column_string(r, 12) is Some
    }

    open spec fn decoded_from(v: Self, r: RowView) -> bool {
        &&& v.id == column_value(r, 1)
        &&& v.map_id == column_value(r, 2)
        &&& v.area_id == column_value(r, 3)
        &&& v.explore_flag == column_value(r, 4)
        &&& v.flags == column_value(r, 5)
        &&& v.sound_ambience_ref_id == column_value(r, 8)
        &&& v.zone_music_ref_id == column_value(r, 9)
        &&& v.zone_intro_music_ref_id == column_value(r, 10)
        &&& v.area_level == column_value(r, 11)
        &&& Some(v.area_name@) == column_string(r, 12)
        &&& v.faction_group_id == column_value(r, 29)
    }

    fn map_dbc_row(row: &DbcFileIteratorRow) -> (r: Result<Self, DecodeError>) {
        let id = row.get_number_column(1)?;
        let map_id = row.get_number_column(2)?;
        let area_id = row.get_number_column(3)?;
        let explore_flag = row.get_number_column(4)?;
        let flags = row.get_number_column(5)?;
        let sound_ambience_ref_id = row.get_number_column(8)?;
        let zone_music_ref_id = row.get_number_column(9)?;
        let zone_intro_music_ref_id = row.get_number_column(10)?;
        let area_level = row.get_number_column(11)?;
        let area_name = row.get_string_column(12)?;
        let faction_group_id = row.get_number_column(29)?;
        Ok(AreaTableDbcRow { id, map_id, area_id, explore_flag, flags, sound_ambience_ref_id, zone_music_ref_id, zone_intro_music_ref_id, area_level, area_name, faction_group_id })
    }
}

impl AreaTableDbcRow {
    /// Decodes every record of `dbc_file` and appends the rows to `row_builder`.
    pub fn process(row_builder: &mut Vec<AreaTableDbcRow>, dbc_file: &DbcFile) -> (r: Result<(), DecodeError>)
        requires
            dbc_file.wf(),
        ensures
            r is Ok <==> all_records_ok::<AreaTableDbcRow>(dbc_file.bytes()),
            final(row_builder)@.len() >= old(row_builder)@.len(),
            forall|k: int|
                0 <= k < old(row_builder)@.len() ==> #[trigger] final(row_builder)@[k] == old(
                    row_builder,
                )@[k],
            forall|k: int|
                0 <= k < final(row_builder)@.len() - old(row_builder)@.len() ==> AreaTableDbcRow::decoded_from(
                    #[trigger] final(row_builder)@[old(row_builder)@.len() + k],
                    record_view(dbc_file.bytes(), k),
                ),
            forall|k: int|
                0 <= k < final(row_builder)@.len() - old(row_builder)@.len() ==> #[trigger] AreaTableDbcRow::row_ok(
                    record_view(dbc_file.bytes(), k),
                ),
            r is Ok ==> final(row_builder)@.len() == old(row_builder)@.len() + record_count(
                dbc_file.bytes(),
            ),
            r is Err ==> final(row_builder)@.len() - old(row_builder)@.len() < record_count(
                dbc_file.bytes(),
            ) && !AreaTableDbcRow::row_ok(
                record_view(dbc_file.bytes(), final(row_builder)@.len() - old(row_builder)@.len()),
            ),
    {
        process_rows(row_builder, dbc_file)
    }

}

/// Decodes a whole area table file from its contents, as read from its path.
pub fn load_area_table_from_path(dbc_content: Vec<u8>) -> (r: Result<Dbc<AreaTableDbcRow>, DecodeError>)
    ensures
        r is Ok <==> header_ok(dbc_content@) && all_records_ok::<AreaTableDbcRow>(dbc_content@),
        r matches Ok(d) ==> header_matches(d.header, dbc_content@) && d.rows@.len() == record_count(
            dbc_content@,
        ),
        r matches Ok(d) ==> forall|k: int|
            0 <= k < record_count(dbc_content@) ==> AreaTableDbcRow::decoded_from(
                #[trigger] d.rows@[k],
                record_view(dbc_content@, k),
            ),
{
    load_dbc(dbc_content)
}

/// A battleground or arena and the maps it is played on.
#[derive(Debug)]
pub struct BattleMasterListDbcRow {
    pub id: u32,
    pub map_ref_ids: [i32; 8],
    pub instance_type: u32,
    pub groups_allowed: bool,
    pub name: String,
    pub max_group_size: u32,
    pub holiday_world_state: u32,
    pub min_level: u32,
    pub max_level: u32,
}

impl DbcRowMapper for BattleMasterListDbcRow {
    open spec fn row_ok(r: RowView) -> bool {
        column_in_record(r.2, 32) && column_string(r, 12) is Some
    }

    open spec fn decoded_from(v: Self, r: RowView) -> bool {
        &&& v.id == column_value(r, 1)
        &&& v.map_ref_ids@ == seq![column_value(r, 2) as i32, column_value(r, 3) as i32, column_value(r, 4) as i32, column_value(r, 5) as i32, column_value(r, 6) as i32, column_value(r, 7) as i32, column_value(r, 8) as i32, column_value(r, 9) as i32]
        &&& v.instance_type == column_value(r, 10)
        &&& v.groups_allowed == (column_value(r, 11) == 1)
        &&& Some(v.name@) == column_string(r, 12)
        &&& v.max_group_size == column_value(r, 29)
        &&& v.holiday_world_state == column_value(r, 30)
        &&& v.min_level == column_value(r, 31)
        &&& v.max_level == column_value(r, 32)
    }

    fn map_dbc_row(row: &DbcFileIteratorRow) -> (r: Result<Self, DecodeError>) {
        let id = row.get_number_column(1)?;
        let map_ref_ids_0 = row.get_number_column_signed(2)?;
        let map_ref_ids_1 = row.get_number_column_signed(3)?;
        let map_ref_ids_2 = row.get_number_column_signed(4)?;
        let map_ref_ids_3 = row.get_number_column_signed(5)?;
        let map_ref_ids_4 = row.get_number_column_signed(6)?;
        let map_ref_ids_5 = row.get_number_column_signed(7)?;
        let map_ref_ids_6 = row.get_number_column_signed(8)?;
        let map_ref_ids_7 = row.get_number_column_signed(9)?;
        let map_ref_ids = [map_ref_ids_0, map_ref_ids_1, map_ref_ids_2, map_ref_ids_3, map_ref_ids_4, map_ref_ids_5, map_ref_ids_6, map_ref_ids_7];
        assert(map_ref_ids@ =~= seq![column_value(row@, 2) as i32, column_value(row@, 3) as i32, column_value(row@, 4) as i32, column_value(row@, 5) as i32, column_value(row@, 6) as i32, column_value(row@, 7) as i32, column_value(row@, 8) as i32, column_value(row@, 9) as i32]);
        let instance_type = row.get_number_column(10)?;
        let groups_allowed = row.get_bool_column(11)?;
        let name = row.get_string_column(12)?;
        let max_group_size = row.get_number_column(29)?;
        let holiday_world_state = row.get_number_column(30)?;
        let min_level = row.get_number_column(31)?;
        let max_level = row.get_number_column(32)?;
        Ok(BattleMasterListDbcRow { id, map_ref_ids, instance_type, groups_allowed, name, max_group_size, holiday_world_state, min_level, max_level })
    }
}

impl BattleMasterListDbcRow {
    /// Decodes every record of `dbc_file` and appends the rows to `row_builder`.
    pub fn process(row_builder: &mut Vec<BattleMasterListDbcRow>, dbc_file: &DbcFile) -> (r: Result<(), DecodeError>)
        requires
            dbc_file.wf(),
        ensures
            r is Ok <==> all_records_ok::<BattleMasterListDbcRow>(dbc_file.bytes()),
            final(row_builder)@.len() >= old(row_builder)@.len(),
            forall|k: int|
                0 <= k < old(row_builder)@.len() ==> #[trigger] final(row_builder)@[k] == old(
                    row_builder,
                )@[k],
            forall|k: int|
                0 <= k < final(row_builder)@.len() - old(row_builder)@.len() ==> BattleMasterListDbcRow::decoded_from(
                    #[trigger] final(row_builder)@[old(row_builder)@.len() + k],
                    record_view(dbc_file.bytes(), k),
                ),
            forall|k: int|
                0 <= k < final(row_builder)@.len() - old(row_builder)@.len() ==> #[trigger] BattleMasterListDbcRow::row_ok(
                    record_view(dbc_file.bytes(), k),
                ),
            r is Ok ==> final(row_builder)@.len() == old(row_builder)@.len() + record_count(
                dbc_file.bytes(),
            ),
            r is Err ==> final(row_builder)@.len() - old(row_builder)@.len() < record_count(
                dbc_file.bytes(),
            ) && !BattleMasterListDbcRow::row_ok(
                record_view(dbc_file.bytes(), final(row_builder)@.len() - old(row_builder)@.len()),
            ),
    {
        process_rows(row_builder, dbc_file)
    }

    /// The entry is an arena.
    pub fn is_arena(&self) -> (r: bool)
        ensures
            r == (self.instance_type == 4),
    {
        self.instance_type == 4
    }

}

/// Decodes a whole battle master list file from its contents, as read from its path.
pub fn load_battle_master_list_from_path(dbc_content: Vec<u8>) -> (r: Result<Dbc<BattleMasterListDbcRow>, DecodeError>)
    ensures
        r is Ok <==> header_ok(dbc_content@) && all_records_ok::<BattleMasterListDbcRow>(dbc_content@),
        r matches Ok(d) ==> header_matches(d.header, dbc_content@) && d.rows@.len() == record_count(
            dbc_content@,
        ),
        r matches Ok(d) ==> forall|k: int|
            0 <= k < record_count(dbc_content@) ==> BattleMasterListDbcRow::decoded_from(
                #[trigger] d.rows@[k],
                record_view(dbc_content@, k),
            ),
{
    load_dbc(dbc_content)
}

/// The model of a game object.
#[derive(Debug)]
pub struct GameObjectDisplayInfo {
    pub id: u32,
    pub model_name: String,
}

impl DbcRowMapper for GameObjectDisplayInfo {
    open spec fn row_ok(r: RowView) -> bool {
        column_in_record(r.2, 2) && column_string(r, 2) is Some
    }

    open spec fn decoded_from(v: Self, r: RowView) -> bool {
        &&& v.id == column_value(r, 1)
        &&& Some(v.model_name@) == column_string(r, 2)
    }

    fn map_dbc_row(row: &DbcFileIteratorRow) -> (r: Result<Self, DecodeError>) {
        let id = row.get_number_column(1)?;
        let model_name = row.get_string_column(2)?;
        Ok(GameObjectDisplayInfo { id, model_name })
    }
}

/// Decodes a whole game object display info file from its contents, as read from its path.
pub fn load_game_object_display_info_from_path(dbc_content: Vec<u8>) -> (r: Result<Dbc<GameObjectDisplayInfo>, DecodeError>)
    ensures
        r is Ok <==> header_ok(dbc_content@) && all_records_ok::<GameObjectDisplayInfo>(dbc_content@),
        r matches Ok(d) ==> header_matches(d.header, dbc_content@) && d.rows@.len() == record_count(
            dbc_content@,
        ),
        r matches Ok(d) ==> forall|k: int|
            0 <= k < record_count(dbc_content@) ==> GameObjectDisplayInfo::decoded_from(
                #[trigger] d.rows@[k],
                record_view(dbc_content@, k),
            ),
{
    load_dbc(dbc_content)
}

/// A model scattered over terrain.
#[derive(Debug)]
pub struct GroundEffectDoodadDbcRow {
    pub id: u32,
    pub ground_models: String,
    pub flags: u32,
}

impl DbcRowMapper for GroundEffectDoodadDbcRow {
    open spec fn row_ok(r: RowView) -> bool {
        column_in_record(r.2, 3) && column_string(r, 2) is Some
    }

    open spec fn decoded_from(v: Self, r: RowView) -> bool {
        &&& v.id == column_value(r, 1)
        &&& Some(v.ground_models@) == column_string(r, 2)
        &&& v.flags == column_value(r, 3)
    }

    fn map_dbc_row(row: &DbcFileIteratorRow) -> (r: Result<Self, DecodeError>) {
        let id = row.get_number_column(1)?;
        let ground_models = row.get_string_column(2)?;
        let flags = row.get_number_column(3)?;
        Ok(GroundEffectDoodadDbcRow { id, ground_models, flags })
    }
}

/// Decodes a whole ground effect doodad file from its contents, as read from its path.
pub fn load_ground_effect_doodad_from_path(dbc_content: Vec<u8>) -> (r: Result<Dbc<GroundEffectDoodadDbcRow>, DecodeError>)
    ensures
        r is Ok <==> header_ok(dbc_content@) && all_records_ok::<GroundEffectDoodadDbcRow>(dbc_content@),
        r matches Ok(d) ==> header_matches(d.header, dbc_content@) && d.rows@.len() == record_count(
            dbc_content@,
        ),
        r matches Ok(d) ==> forall|k: int|
            0 <= k < record_count(dbc_content@) ==> GroundEffectDoodadDbcRow::decoded_from(
                #[trigger] d.rows@[k],
                record_view(dbc_content@, k),
            ),
{
    load_dbc(dbc_content)
}

/// Which ground doodads a terrain texture carries, and how densely.
#[derive(Debug)]
pub struct GroundEffectTextureDbcRow {
    pub id: u32,
    pub effect_doodad_ref_ids: [u32; 4],
    pub weights: [u32; 4],
    pub amount_and_coverage: u32,
    pub terrain_type_ref_id: u32,
}

impl DbcRowMapper for GroundEffectTextureDbcRow {
    open spec fn row_ok(r: RowView) -> bool {
        column_in_record(r.2, 11)
    }

    open spec fn decoded_from(v: Self, r: RowView) -> bool {
        &&& v.id == column_value(r, 1)
        &&& v.effect_doodad_ref_ids@ == seq![column_value(r, 2), column_value(r, 3), column_value(r, 4), column_value(r, 5)]
        &&& v.weights@ == seq![column_value(r, 6), column_value(r, 7), column_value(r, 8), column_value(r, 9)]
        &&& v.amount_and_coverage == column_value(r, 10)
        &&& v.terrain_type_ref_id == column_value(r, 11)
    }

    fn map_dbc_row(row: &DbcFileIteratorRow) -> (r: Result<Self, DecodeError>) {
        let id = row.get_number_column(1)?;
        let effect_doodad_ref_ids_0 = row.get_number_column(2)?;
        let effect_doodad_ref_ids_1 = row.get_number_column(3)?;
        let effect_doodad_ref_ids_2 = row.get_number_column(4)?;
        let effect_doodad_ref_ids_3 = row.get_number_column(5)?;
        let effect_doodad_ref_ids = [effect_doodad_ref_ids_0, effect_doodad_ref_ids_1, effect_doodad_ref_ids_2, effect_doodad_ref_ids_3];
        assert(effect_doodad_ref_ids@ =~= seq![column_value(row@, 2), column_value(row@, 3), column_value(row@, 4), column_value(row@, 5)]);
        let weights_0 = row.get_number_column(6)?;
        let weights_1 = row.get_number_column(7)?;
        let weights_2 = row.get_number_column(8)?;
        let weights_3 = row.get_number_column(9)?;
        let weights = [weights_0, weights_1, weights_2, weights_3];
        assert(weights@ =~= seq![column_value(row@, 6), column_value(row@, 7), column_value(row@, 8), column_value(row@, 9)]);
        let amount_and_coverage = row.get_number_column(10)?;
        let terrain_type_ref_id = row.get_number_column(11)?;
        Ok(GroundEffectTextureDbcRow { id, effect_doodad_ref_ids, weights, amount_and_coverage, terrain_type_ref_id })
    }
}

/// Decodes a whole ground effect texture file from its contents, as read from its path.
pub fn load_ground_effect_texture_from_path(dbc_content: Vec<u8>) -> (r: Result<Dbc<GroundEffectTextureDbcRow>, DecodeError>)
    ensures
        r is Ok <==> header_ok(dbc_content@) && all_records_ok::<GroundEffectTextureDbcRow>(dbc_content@),
        r matches Ok(d) ==> header_matches(d.header, dbc_content@) && d.rows@.len() == record_count(
            dbc_content@,
        ),
        r matches Ok(d) ==> forall|k: int|
            0 <= k < record_count(dbc_content@) ==> GroundEffectTextureDbcRow::decoded_from(
                #[trigger] d.rows@[k],
                record_view(dbc_content@, k),
            ),
{
    load_dbc(dbc_content)
}

/// A sky box model.
#[derive(Debug)]
pub struct LightSkyBoxDbcRow {
    pub id: u32,
    pub reference_path: String,
    pub flags: u32,
}

impl DbcRowMapper for LightSkyBoxDbcRow {
    open spec fn row_ok(r: RowView) -> bool {
        column_in_record(r.2, 3) && column_string(r, 2) is Some
    }

    open spec fn decoded_from(v: Self, r: RowView) -> bool {
        &&& v.id == column_value(r, 1)
        &&& Some(v.reference_path@) == column_string(r, 2)
        &&& v.flags == column_value(r, 3)
    }

    fn map_dbc_row(row: &DbcFileIteratorRow) -> (r: Result<Self, DecodeError>) {
        let id = row.get_number_column(1)?;
        let reference_path = row.get_string_column(2)?;
        let flags = row.get_number_column(3)?;
        Ok(LightSkyBoxDbcRow { id, reference_path, flags })
    }
}

/// Decodes a whole light sky box file from its contents, as read from its path.
pub fn load_light_sky_box_from_path(dbc_content: Vec<u8>) -> (r: Result<Dbc<LightSkyBoxDbcRow>, DecodeError>)
    ensures
        r is Ok <==> header_ok(dbc_content@) && all_records_ok::<LightSkyBoxDbcRow>(dbc_content@),
        r matches Ok(d) ==> header_matches(d.header, dbc_content@) && d.rows@.len() == record_count(
            dbc_content@,
        ),
        r matches Ok(d) ==> forall|k: int|
            0 <= k < record_count(dbc_content@) ==> LightSkyBoxDbcRow::decoded_from(
                #[trigger] d.rows@[k],
                record_view(dbc_content@, k),
            ),
{
    load_dbc(dbc_content)
}

/// A loading screen image.
#[derive(Debug)]
pub struct LoadingScreenDbcRow {
    pub id: u32,
    pub name: String,
    pub path: String,
    pub has_wide_screen: bool,
}

impl DbcRowMapper for LoadingScreenDbcRow {
    open spec fn row_ok(r: RowView) -> bool {
        column_in_record(r.2, 4) && column_string(r, 2) is Some && column_string(r, 3) is Some
    }

    open spec fn decoded_from(v: Self, r: RowView) -> bool {
        &&& v.id == column_value(r, 1)
        &&& Some(v.name@) == column_string(r, 2)
        &&& Some(v.path@) == column_string(r, 3)
        &&& v.has_wide_screen == (column_value(r, 4) == 1)
    }

    fn map_dbc_row(row: &DbcFileIteratorRow) -> (r: Result<Self, DecodeError>) {
        let id = row.get_number_column(1)?;
        let name = row.get_string_column(2)?;
        let path = row.get_string_column(3)?;
        let has_wide_screen = row.get_bool_column(4)?;
        Ok(LoadingScreenDbcRow { id, name, path, has_wide_screen })
    }
}

/// Decodes a whole loading screens file from its contents, as read from its path.
pub fn load_loading_screens_dbc_from_path(dbc_content: Vec<u8>) -> (r: Result<Dbc<LoadingScreenDbcRow>, DecodeError>)
    ensures
        r is Ok <==> header_ok(dbc_content@) && all_records_ok::<LoadingScreenDbcRow>(dbc_content@),
        r matches Ok(d) ==> header_matches(d.header, dbc_content@) && d.rows@.len() == record_count(
            dbc_content@,
        ),
        r matches Ok(d) ==> forall|k: int|
            0 <= k < record_count(dbc_content@) ==> LoadingScreenDbcRow::decoded_from(
                #[trigger] d.rows@[k],
                record_view(dbc_content@, k),
            ),
{
    load_dbc(dbc_content)
}

/// A level bracket of a battleground map.
#[derive(Debug)]
pub struct PvpDifficulty {
    pub id: u32,
    pub map_id: u32,
    pub range_index: u32,
    pub min_level: u32,
    pub max_level: u32,
    pub difficulty: u32,
}

impl DbcRowMapper for PvpDifficulty {
    open spec fn row_ok(r: RowView) -> bool {
        column_in_record(r.2, 6)
    }

    open spec fn decoded_from(v: Self, r: RowView) -> bool {
        &&& v.id == column_value(r, 1)
        &&& v.map_id == column_value(r, 2)
        &&& v.range_index == column_value(r, 3)
        &&& v.min_level == column_value(r, 4)
        &&& v.max_level == column_value(r, 5)
        &&& v.difficulty == column_value(r, 6)
    }

    fn map_dbc_row(row: &DbcFileIteratorRow) -> (r: Result<Self, DecodeError>) {
        let id = row.get_number_column(1)?;
        let map_id = row.get_number_column(2)?;
        let range_index = row.get_number_column(3)?;
        let min_level = row.get_number_column(4)?;
        let max_level = row.get_number_column(5)?;
        let difficulty = row.get_number_column(6)?;
        Ok(PvpDifficulty { id, map_id, range_index, min_level, max_level, difficulty })
    }
}

/// Decodes a whole pvp difficulty file from its contents, as read from its path.
pub fn load_pvp_difficulty_from_path(dbc_content: Vec<u8>) -> (r: Result<Dbc<PvpDifficulty>, DecodeError>)
    ensures
        r is Ok <==> header_ok(dbc_content@) && all_records_ok::<PvpDifficulty>(dbc_content@),
        r matches Ok(d) ==> header_matches(d.header, dbc_content@) && d.rows@.len() == record_count(
            dbc_content@,
        ),
        r matches Ok(d) ==> forall|k: int|
            0 <= k < record_count(dbc_content@) ==> PvpDifficulty::decoded_from(
                #[trigger] d.rows@[k],
                record_view(dbc_content@, k),
            ),
{
    load_dbc(dbc_content)
}

/// A spell category.
#[derive(Debug, Clone, Copy)]
pub struct SpellCategoryDbcRow {
    pub id: u32,
    pub flags: u32,
}

impl DbcRowMapper for SpellCategoryDbcRow {
    open spec fn row_ok(r: RowView) -> bool {
        column_in_record(r.2, 2)
    }

    open spec fn decoded_from(v: Self, r: RowView) -> bool {
        &&& v.id == column_value(r, 1)
        &&& v.flags == column_value(r, 2)
    }

    fn map_dbc_row(row: &DbcFileIteratorRow) -> (r: Result<Self, DecodeError>) {
        let id = row.get_number_column(1)?;
        let flags = row.get_number_column(2)?;
        Ok(SpellCategoryDbcRow { id, flags })
    }
}

/// Decodes a whole spell category file from its contents, as read from its path.
pub fn load_spell_category_dbc_from_path(dbc_content: Vec<u8>) -> (r: Result<Dbc<SpellCategoryDbcRow>, DecodeError>)
    ensures
        r is Ok <==> header_ok(dbc_content@) && all_records_ok::<SpellCategoryDbcRow>(dbc_content@),
        r matches Ok(d) ==> header_matches(d.header, dbc_content@) && d.rows@.len() == record_count(
            dbc_content@,
        ),
        r matches Ok(d) ==> forall|k: int|
            0 <= k < record_count(dbc_content@) ==> SpellCategoryDbcRow::decoded_from(
                #[trigger] d.rows@[k],
                record_view(dbc_content@, k),
            ),
{
    load_dbc(dbc_content)
}

/// A spell icon texture.
#[derive(Debug, Clone)]
pub struct SpellIconDbcRow {
    pub id: u32,
    pub file_name: String,
}

impl DbcRowMapper for SpellIconDbcRow {
    open spec fn row_ok(r: RowView) -> bool {
        column_in_record(r.2, 2) && column_string(r, 2) is Some
    }

    open spec fn decoded_from(v: Self, r: RowView) -> bool {
        &&& v.id == column_value(r, 1)
        &&& Some(v.file_name@) == column_string(r, 2)
    }

    fn map_dbc_row(row: &DbcFileIteratorRow) -> (r: Result<Self, DecodeError>) {
        let id = row.get_number_column(1)?;
        let file_name = row.get_string_column(2)?;
        Ok(SpellIconDbcRow { id, file_name })
    }
}

/// Decodes a whole spell icon file from its contents, as read from its path.
pub fn load_spell_icon_dbc_from_path(dbc_content: Vec<u8>) -> (r: Result<Dbc<SpellIconDbcRow>, DecodeError>)
    ensures
        r is Ok <==> header_ok(dbc_content@) && all_records_ok::<SpellIconDbcRow>(dbc_content@),
        r matches Ok(d) ==> header_matches(d.header, dbc_content@) && d.rows@.len() == record_count(
            dbc_content@,
        ),
        r matches Ok(d) ==> forall|k: int|
            0 <= k < record_count(dbc_content@) ==> SpellIconDbcRow::decoded_from(
                #[trigger] d.rows@[k],
                record_view(dbc_content@, k),
            ),
{
    load_dbc(dbc_content)
}

/// The visual kits a spell plays while it is cast and lands.
#[derive(Debug, Clone, Copy)]
pub struct SpellVisualDbcRow {
    pub id: u32,
    pub pre_cast_kit_id: u32,
    pub cast_kit_id: u32,
    pub impact_kit_id: u32,
    pub state_kit_id: u32,
    pub state_done_kit_id: u32,
    pub channel_kit_id: u32,
    pub has_middle: bool,
    pub missile_model_id: u32,
    pub missile_path_type: u32,
    pub missile_destination_attachment: u32,
    pub missile_sound: u32,
    pub anim_event_sound_id: u32,
    pub flags: u32,
    pub caster_impact_kit: u32,
    pub target_impact_kit: u32,
    pub missile_attachment: u32,
    pub missile_follow_ground_height: u32,
    pub missile_follow_ground_drop_speed: u32,
    pub missile_follow_ground_approach: u32,
    pub missile_follow_ground_flags: u32,
    pub missile_motion: u32,
    pub missile_targeting_kit: u32,
    pub instant_area_kit: u32,
    pub impact_area_kit: u32,
    pub persistent_area_kit: u32,
}

impl DbcRowMapper for SpellVisualDbcRow {
    open spec fn row_ok(r: RowView) -> bool {
        column_in_record(r.2, 26)
    }

    open spec fn decoded_from(v: Self, r: RowView) -> bool {
        &&& v.id == column_value(r, 1)
        &&& v.pre_cast_kit_id == column_value(r, 2)
        &&& v.cast_kit_id == column_value(r, 3)
        &&& v.impact_kit_id == column_value(r, 4)
        &&& v.state_kit_id == column_value(r, 5)
        &&& v.state_done_kit_id == column_value(r, 6)
        &&& v.channel_kit_id == column_value(r, 7)
        &&& v.has_middle == (column_value(r, 8) == 1)
        &&& v.missile_model_id == column_value(r, 9)
        &&& v.missile_path_type == column_value(r, 10)
        &&& v.missile_destination_attachment == column_value(r, 11)
        &&& v.missile_sound == column_value(r, 12)
        &&& v.anim_event_sound_id == column_value(r, 13)
        &&& v.flags == column_value(r, 14)
        &&& v.caster_impact_kit == column_value(r, 15)
        &&& v.target_impact_kit == column_value(r, 16)
        &&& v.missile_attachment == column_value(r, 17)
        &&& v.missile_follow_ground_height == column_value(r, 18)
        &&& v.missile_follow_ground_drop_speed == column_value(r, 19)
        &&& v.missile_follow_ground_approach == column_value(r, 20)
        &&& v.missile_follow_ground_flags == column_value(r, 21)
        &&& v.missile_motion == column_value(r, 22)
        &&& v.missile_targeting_kit == column_value(r, 23)
        &&& v.instant_area_kit == column_value(r, 24)
        &&& v.impact_area_kit == column_value(r, 25)
        &&& v.persistent_area_kit == column_value(r, 26)
    }

    fn map_dbc_row(row: &DbcFileIteratorRow) -> (r: Result<Self, DecodeError>) {
        let id = row.get_number_column(1)?;
        let pre_cast_kit_id = row.get_number_column(2)?;
        let cast_kit_id = row.get_number_column(3)?;
        let impact_kit_id = row.get_number_column(4)?;
        let state_kit_id = row.get_number_column(5)?;
        let state_done_kit_id = row.get_number_column(6)?;
        let channel_kit_id = row.get_number_column(7)?;
        let has_middle = row.get_bool_column(8)?;
        let missile_model_id = row.get_number_column(9)?;
        let missile_path_type = row.get_number_column(10)?;
        let missile_destination_attachment = row.get_number_column(11)?;
        let missile_sound = row.get_number_column(12)?;
        let anim_event_sound_id = row.get_number_column(13)?;
        let flags = row.get_number_column(14)?;
        let caster_impact_kit = row.get_number_column(15)?;
        let target_impact_kit = row.get_number_column(16)?;
        let missile_attachment = row.get_number_column(17)?;
        let missile_follow_ground_height = row.get_number_column(18)?;
        let missile_follow_ground_drop_speed = row.get_number_column(19)?;
        let missile_follow_ground_approach = row.get_number_column(20)?;
        let missile_follow_ground_flags = row.get_number_column(21)?;
        let missile_motion = row.get_number_column(22)?;
        let missile_targeting_kit = row.get_number_column(23)?;
        let instant_area_kit = row.get_number_column(24)?;
        let impact_area_kit = row.get_number_column(25)?;
        let persistent_area_kit = row.get_number_column(26)?;
        Ok(SpellVisualDbcRow { id, pre_cast_kit_id, cast_kit_id, impact_kit_id, state_kit_id, state_done_kit_id, channel_kit_id, has_middle, missile_model_id, missile_path_type, missile_destination_attachment, missile_sound, anim_event_sound_id, flags, caster_impact_kit, target_impact_kit, missile_attachment, missile_follow_ground_height, missile_follow_ground_drop_speed, missile_follow_ground_approach, missile_follow_ground_flags, missile_motion, missile_targeting_kit, instant_area_kit, impact_area_kit, persistent_area_kit })
    }
}

/// Decodes a whole spell visual file from its contents, as read from its path.
pub fn load_spell_visual_dbc_from_path(dbc_content: Vec<u8>) -> (r: Result<Dbc<SpellVisualDbcRow>, DecodeError>)
    ensures
        r is Ok <==> header_ok(dbc_content@) && all_records_ok::<SpellVisualDbcRow>(dbc_content@),
        r matches Ok(d) ==> header_matches(d.header, dbc_content@) && d.rows@.len() == record_count(
            dbc_content@,
        ),
        r matches Ok(d) ==> forall|k: int|
            0 <= k < record_count(dbc_content@) ==> SpellVisualDbcRow::decoded_from(
                #[trigger] d.rows@[k],
                record_view(dbc_content@, k),
            ),
{
    load_dbc(dbc_content)
}

/// The animations and effects of one stage of a spell visual.
#[derive(Debug, Clone, Copy)]
pub struct SpellVisualKitDbcRow {
    pub id: u32,
    pub start_animation_id: u32,
    pub animation_id: u32,
    pub head_effect: u32,
    pub chest_effect: u32,
    pub base_effect: u32,
    pub left_hand_effect: u32,
    pub right_hand_effect: u32,
    pub breath_effect: u32,
    pub left_weapon_effect: u32,
    pub right_weapon_effect: u32,
    pub special_effect_1: u32,
    pub special_effect_2: u32,
    pub special_effect_3: u32,
    pub world_effect: u32,
    pub sound_id: u32,
    pub shake_id: u32,
    pub flags: u32,
}

impl DbcRowMapper for SpellVisualKitDbcRow {
    open spec fn row_ok(r: RowView) -> bool {
        column_in_record(r.2, 35)
    }

    open spec fn decoded_from(v: Self, r: RowView) -> bool {
        &&& v.id == column_value(r, 1)
        &&& v.start_animation_id == column_value(r, 2)
        &&& v.animation_id == column_value(r, 3)
        &&& v.head_effect == column_value(r, 4)
        &&& v.chest_effect == column_value(r, 5)
        &&& v.base_effect == column_value(r, 6)
        &&& v.left_hand_effect == column_value(r, 7)
        &&& v.right_hand_effect == column_value(r, 8)
        &&& v.breath_effect == column_value(r, 9)
        &&& v.left_weapon_effect == column_value(r, 10)
        &&& v.right_weapon_effect == column_value(r, 11)
        &&& v.special_effect_1 == column_value(r, 12)
        &&& v.special_effect_2 == column_value(r, 13)
        &&& v.special_effect_3 == column_value(r, 14)
        &&& v.world_effect == column_value(r, 15)
        &&& v.sound_id == column_value(r, 16)
        &&& v.shake_id == column_value(r, 17)
        &&& v.flags == column_value(r, 35)
    }

    fn map_dbc_row(row: &DbcFileIteratorRow) -> (r: Result<Self, DecodeError>) {
        let id = row.get_number_column(1)?;
        let start_animation_id = row.get_number_column(2)?;
        let animation_id = row.get_number_column(3)?;
        let head_effect = row.get_number_column(4)?;
        let chest_effect = row.get_number_column(5)?;
        let base_effect = row.get_number_column(6)?;
        let left_hand_effect = row.get_number_column(7)?;
        let right_hand_effect = row.get_number_column(8)?;
        let breath_effect = row.get_number_column(9)?;
        let left_weapon_effect = row.get_number_column(10)?;
        let right_weapon_effect = row.get_number_column(11)?;
        let special_effect_1 = row.get_number_column(12)?;
        let special_effect_2 = row.get_number_column(13)?;
        let special_effect_3 = row.get_number_column(14)?;
        let world_effect = row.get_number_column(15)?;
        let sound_id = row.get_number_column(16)?;
        let shake_id = row.get_number_column(17)?;
        let flags = row.get_number_column(35)?;
        Ok(SpellVisualKitDbcRow { id, start_animation_id, animation_id, head_effect, chest_effect, base_effect, left_hand_effect, right_hand_effect, breath_effect, left_weapon_effect, right_weapon_effect, special_effect_1, special_effect_2, special_effect_3, world_effect, sound_id, shake_id, flags })
    }
}

impl SpellVisualKitDbcRow {
    /// Decodes every record of `dbc_file` and appends the rows to `row_builder`.
    pub fn process(row_builder: &mut Vec<SpellVisualKitDbcRow>, dbc_file: &DbcFile) -> (r: Result<(), DecodeError>)
        requires
            dbc_file.wf(),
        ensures
            r is Ok <==> all_records_ok::<SpellVisualKitDbcRow>(dbc_file.bytes()),
            final(row_builder)@.len() >= old(row_builder)@.len(),
            forall|k: int|
                0 <= k < old(row_builder)@.len() ==> #[trigger] final(row_builder)@[k] == old(
                    row_builder,
                )@[k],
            forall|k: int|
                0 <= k < final(row_builder)@.len() - old(row_builder)@.len() ==> SpellVisualKitDbcRow::decoded_from(
                    #[trigger] final(row_builder)@[old(row_builder)@.len() + k],
                    record_view(dbc_file.bytes(), k),
                ),
            forall|k: int|
                0 <= k < final(row_builder)@.len() - old(row_builder)@.len() ==> #[trigger] SpellVisualKitDbcRow::row_ok(
                    record_view(dbc_file.bytes(), k),
                ),
            r is Ok ==> final(row_builder)@.len() == old(row_builder)@.len() + record_count(
                dbc_file.bytes(),
            ),
            r is Err ==> final(row_builder)@.len() - old(row_builder)@.len() < record_count(
                dbc_file.bytes(),
            ) && !SpellVisualKitDbcRow::row_ok(
                record_view(dbc_file.bytes(), final(row_builder)@.len() - old(row_builder)@.len()),
            ),
    {
        process_rows(row_builder, dbc_file)
    }

}

/// Decodes a whole spell visual kit file from its contents, as read from its path.
pub fn load_spell_visual_kit_dbc_from_path(dbc_content: Vec<u8>) -> (r: Result<Dbc<SpellVisualKitDbcRow>, DecodeError>)
    ensures
        r is Ok <==> header_ok(dbc_content@) && all_records_ok::<SpellVisualKitDbcRow>(dbc_content@),
        r matches Ok(d) ==> header_matches(d.header, dbc_content@) && d.rows@.len() == record_count(
            dbc_content@,
        ),
        r matches Ok(d) ==> forall|k: int|
            0 <= k < record_count(dbc_content@) ==> SpellVisualKitDbcRow::decoded_from(
                #[trigger] d.rows@[k],
                record_view(dbc_content@, k),
            ),
{
    load_dbc(dbc_content)
}

/// A talent: its tab, its place in the tree, its ranks and what it requires.
#[derive(Debug)]
pub struct TalentDbcRow {
    pub id: u32,
    pub talent_tab_id: u32,
    pub tier: u32,
    pub column_index: u32,
    pub spell_rank_ids: [u32; 9],
    pub required_talent_ids: [u32; 3],
    pub required_talent_point_rank_ids: [u32; 3],
    pub only_one_point: bool,
}

impl DbcRowMapper for TalentDbcRow {
    open spec fn row_ok(r: RowView) -> bool {
        column_in_record(r.2, 20)
    }

    open spec fn decoded_from(v: Self, r: RowView) -> bool {
        &&& v.id == column_value(r, 1)
        &&& v.talent_tab_id == column_value(r, 2)
        &&& v.tier == column_value(r, 3)
        &&& v.column_index == column_value(r, 4)
        &&& v.spell_rank_ids@ == seq![column_value(r, 5), column_value(r, 6), column_value(r, 7), column_value(r, 8), column_value(r, 9), column_value(r, 10), column_value(r, 11), column_value(r, 12), column_value(r, 13)]
        &&& v.required_talent_ids@ == seq![column_value(r, 14), column_value(r, 15), column_value(r, 16)]
        &&& v.required_talent_point_rank_ids@ == seq![column_value(r, 17), column_value(r, 18), column_value(r, 19)]
        &&& v.only_one_point == (column_value(r, 20) == 1)
    }

    fn map_dbc_row(row: &DbcFileIteratorRow) -> (r: Result<Self, DecodeError>) {
        let id = row.get_number_column(1)?;
        let talent_tab_id = row.get_number_column(2)?;
        let tier = row.get_number_column(3)?;
        let column_index = row.get_number_column(4)?;
        let spell_rank_ids_0 = row.get_number_column(5)?;
        let spell_rank_ids_1 = row.get_number_column(6)?;
        let spell_rank_ids_2 = row.get_number_column(7)?;
        let spell_rank_ids_3 = row.get_number_column(8)?;
        let spell_rank_ids_4 = row.get_number_column(9)?;
        let spell_rank_ids_5 = row.get_number_column(10)?;
        let spell_rank_ids_6 = row.get_number_column(11)?;
        let spell_rank_ids_7 = row.get_number_column(12)?;
        let spell_rank_ids_8 = row.get_number_column(13)?;
        let spell_rank_ids = [spell_rank_ids_0, spell_rank_ids_1, spell_rank_ids_2, spell_rank_ids_3, spell_rank_ids_4, spell_rank_ids_5, spell_rank_ids_6, spell_rank_ids_7, spell_rank_ids_8];
        assert(spell_rank_ids@ =~= seq![column_value(row@, 5), column_value(row@, 6), column_value(row@, 7), column_value(row@, 8), column_value(row@, 9), column_value(row@, 10), column_value(row@, 11), column_value(row@, 12), column_value(row@, 13)]);
        let required_talent_ids_0 = row.get_number_column(14)?;
        let required_talent_ids_1 = row.get_number_column(15)?;
        let required_talent_ids_2 = row.get_number_column(16)?;
        let required_talent_ids = [required_talent_ids_0, required_talent_ids_1, required_talent_ids_2];
        assert(required_talent_ids@ =~= seq![column_value(row@, 14), column_value(row@, 15), column_value(row@, 16)]);
        let required_talent_point_rank_ids_0 = row.get_number_column(17)?;
        let required_talent_point_rank_ids_1 = row.get_number_column(18)?;
        let required_talent_point_rank_ids_2 = row.get_number_column(19)?;
        let required_talent_point_rank_ids = [required_talent_point_rank_ids_0, required_talent_point_rank_ids_1, required_talent_point_rank_ids_2];
        assert(required_talent_point_rank_ids@ =~= seq![column_value(row@, 17), column_value(row@, 18), column_value(row@, 19)]);
        let only_one_point = row.get_bool_column(20)?;
        Ok(TalentDbcRow { id, talent_tab_id, tier, column_index, spell_rank_ids, required_talent_ids, required_talent_point_rank_ids, only_one_point })
    }
}

impl TalentDbcRow {
    /// Decodes every record of `dbc_file` and appends the rows to `row_builder`.
    pub fn process(row_builder: &mut Vec<TalentDbcRow>, dbc_file: &DbcFile) -> (r: Result<(), DecodeError>)
        requires
            dbc_file.wf(),
        ensures
            r is Ok <==> all_records_ok::<TalentDbcRow>(dbc_file.bytes()),
            final(row_builder)@.len() >= old(row_builder)@.len(),
            forall|k: int|
                0 <= k < old(row_builder)@.len() ==> #[trigger] final(row_builder)@[k] == old(
                    row_builder,
                )@[k],
            forall|k: int|
                0 <= k < final(row_builder)@.len() - old(row_builder)@.len() ==> TalentDbcRow::decoded_from(
                    #[trigger] final(row_builder)@[old(row_builder)@.len() + k],
                    record_view(dbc_file.bytes(), k),
                ),
            forall|k: int|
                0 <= k < final(row_builder)@.len() - old(row_builder)@.len() ==> #[trigger] TalentDbcRow::row_ok(
                    record_view(dbc_file.bytes(), k),
                ),
            r is Ok ==> final(row_builder)@.len() == old(row_builder)@.len() + record_count(
                dbc_file.bytes(),
            ),
            r is Err ==> final(row_builder)@.len() - old(row_builder)@.len() < record_count(
                dbc_file.bytes(),
            ) && !TalentDbcRow::row_ok(
                record_view(dbc_file.bytes(), final(row_builder)@.len() - old(row_builder)@.len()),
            ),
    {
        process_rows(row_builder, dbc_file)
    }

}

/// Decodes a whole talent file from its contents, as read from its path.
pub fn load_talent_dbc_from_path(dbc_content: Vec<u8>) -> (r: Result<Dbc<TalentDbcRow>, DecodeError>)
    ensures
        r is Ok <==> header_ok(dbc_content@) && all_records_ok::<TalentDbcRow>(dbc_content@),
        r matches Ok(d) ==> header_matches(d.header, dbc_content@) && d.rows@.len() == record_count(
            dbc_content@,
        ),
        r matches Ok(d) ==> forall|k: int|
            0 <= k < record_count(dbc_content@) ==> TalentDbcRow::decoded_from(
                #[trigger] d.rows@[k],
                record_view(dbc_content@, k),
            ),
{
    load_dbc(dbc_content)
}

/// A talent tree.
#[derive(Debug)]
pub struct TalentTabRow {
    pub id: u32,
    pub name: String,
    pub spell_icon_id: u32,
    pub race_mask: u32,
    pub class_mask: u32,
    pub hunter_pet_category_id: u32,
    pub order_index: u32,
    pub background_file: String,
}

impl DbcRowMapper for TalentTabRow {
    open spec fn row_ok(r: RowView) -> bool {
        column_in_record(r.2, 24) && column_string(r, 2) is Some && column_string(r, 24) is Some
    }

    open spec fn decoded_from(v: Self, r: RowView) -> bool {
        &&& v.id == column_value(r, 1)
        &&& Some(v.name@) == column_string(r, 2)
        &&& v.spell_icon_id == column_value(r, 19)
        &&& v.race_mask == column_value(r, 20)
        &&& v.class_mask == column_value(r, 21)
        &&& v.hunter_pet_category_id == column_value(r, 22)
        &&& v.order_index == column_value(r, 23)
        &&& Some(v.background_file@) == column_string(r, 24)
    }

    fn map_dbc_row(row: &DbcFileIteratorRow) -> (r: Result<Self, DecodeError>) {
        let id = row.get_number_column(1)?;
        let name = row.get_string_column(2)?;
        let spell_icon_id = row.get_number_column(19)?;
        let race_mask = row.get_number_column(20)?;
        let class_mask = row.get_number_column(21)?;
        let hunter_pet_category_id = row.get_number_column(22)?;
        let order_index = row.get_number_column(23)?;
        let background_file = row.get_string_column(24)?;
        Ok(TalentTabRow { id, name, spell_icon_id, race_mask, class_mask, hunter_pet_category_id, order_index, background_file })
    }
}

/// Decodes a whole talent tab file from its contents, as read from its path.
pub fn load_talent_tab_dbc_from_path(dbc_content: Vec<u8>) -> (r: Result<Dbc<TalentTabRow>, DecodeError>)
    ensures
        r is Ok <==> header_ok(dbc_content@) && all_records_ok::<TalentTabRow>(dbc_content@),
        r matches Ok(d) ==> header_matches(d.header, dbc_content@) && d.rows@.len() == record_count(
            dbc_content@,
        ),
        r matches Ok(d) ==> forall|k: int|
            0 <= k < record_count(dbc_content@) ==> TalentTabRow::decoded_from(
                #[trigger] d.rows@[k],
                record_view(dbc_content@, k),
            ),
{
    load_dbc(dbc_content)
}

/// A map: its names, descriptions, entrance and limits. Fields that the file stores as `f32` are kept as their bit patterns.
#[derive(Debug)]
pub struct MapDbcRow {
    pub id: u32,
    pub internal_name: String,
    pub flags: u32,
    pub map_type: u32,
    pub is_bg: bool,
    pub name: String,
    pub area_table_ref_id: u32,
    pub map_description_alliance: String,
    pub map_description_horde: String,
    pub loading_screen_ref_id: u32,
    pub bg_map_icon_scale: u32,
    pub ghost_entrance_map_ref_id: u32,
    pub ghost_entrance_x: u32,
    pub ghost_entrance_y: u32,
    pub time_of_the_day_override: u32,
    pub expansion: u32,
    pub raid_offset: u32,
    pub max_players: u32,
}

impl DbcRowMapper for MapDbcRow {
    open spec fn row_ok(r: RowView) -> bool {
        column_in_record(r.2, 66) && column_string(r, 2) is Some && column_string(r, 6) is Some && column_string(r, 24) is Some && column_string(r, 41) is Some
    }

    open spec fn decoded_from(v: Self, r: RowView) -> bool {
        &&& v.id == column_value(r, 1)
        &&& Some(v.internal_name@) == column_string(r, 2)
        &&& v.flags == column_value(r, 3)
        &&& v.map_type == column_value(r, 4)
        &&& v.is_bg == (column_value(r, 5) == 1)
        &&& Some(v.name@) == column_string(r, 6)
        &&& v.area_table_ref_id == column_value(r, 23)
        &&& Some(v.map_description_alliance@) == column_string(r, 24)
        &&& Some(v.map_description_horde@) == column_string(r, 41)
        &&& v.loading_screen_ref_id == column_value(r, 58)
        &&& v.bg_map_icon_scale == column_value(r, 59)
        &&& v.ghost_entrance_map_ref_id == column_value(r, 60)
        &&& v.ghost_entrance_x == column_value(r, 61)
        &&& v.ghost_entrance_y == column_value(r, 62)
        &&& v.time_of_the_day_override == column_value(r, 63)
        &&& v.expansion == column_value(r, 64)
        &&& v.raid_offset == column_value(r, 65)
        &&& v.max_players == column_value(r, 66)
    }

    fn map_dbc_row(row: &DbcFileIteratorRow) -> (r: Result<Self, DecodeError>) {
        let id = row.get_number_column(1)?;
        let internal_name = row.get_string_column(2)?;
        let flags = row.get_number_column(3)?;
        let map_type = row.get_number_column(4)?;
        let is_bg = row.get_bool_column(5)?;
        let name = row.get_string_column(6)?;
        let area_table_ref_id = row.get_number_column(23)?;
        let map_description_alliance = row.get_string_column(24)?;
        let map_description_horde = row.get_string_column(41)?;
        let loading_screen_ref_id = row.get_number_column(58)?;
        let bg_map_icon_scale = row.get_number_column(59)?;
        let ghost_entrance_map_ref_id = row.get_number_column(60)?;
        let ghost_entrance_x = row.get_number_column(61)?;
        let ghost_entrance_y = row.get_number_column(62)?;
        let time_of_the_day_override = row.get_number_column(63)?;
        let expansion = row.get_number_column(64)?;
        let raid_offset = row.get_number_column(65)?;
        let max_players = row.get_number_column(66)?;
        Ok(MapDbcRow { id, internal_name, flags, map_type, is_bg, name, area_table_ref_id, map_description_alliance, map_description_horde, loading_screen_ref_id, bg_map_icon_scale, ghost_entrance_map_ref_id, ghost_entrance_x, ghost_entrance_y, time_of_the_day_override, expansion, raid_offset, max_players })
    }
}

impl MapDbcRow {
    /// Decodes every record of `dbc_file` and appends the rows to `row_builder`.
    pub fn process(row_builder: &mut Vec<MapDbcRow>, dbc_file: &DbcFile) -> (r: Result<(), DecodeError>)
        requires
            dbc_file.wf(),
        ensures
            r is Ok <==> all_records_ok::<MapDbcRow>(dbc_file.bytes()),
            final(row_builder)@.len() >= old(row_builder)@.len(),
            forall|k: int|
                0 <= k < old(row_builder)@.len() ==> #[trigger] final(row_builder)@[k] == old(
                    row_builder,
                )@[k],
            forall|k: int|
                0 <= k < final(row_builder)@.len() - old(row_builder)@.len() ==> MapDbcRow::decoded_from(
                    #[trigger] final(row_builder)@[old(row_builder)@.len() + k],
                    record_view(dbc_file.bytes(), k),
                ),
            forall|k: int|
                0 <= k < final(row_builder)@.len() - old(row_builder)@.len() ==> #[trigger] MapDbcRow::row_ok(
                    record_view(dbc_file.bytes(), k),
                ),
            r is Ok ==> final(row_builder)@.len() == old(row_builder)@.len() + record_count(
                dbc_file.bytes(),
            ),
            r is Err ==> final(row_builder)@.len() - old(row_builder)@.len() < record_count(
                dbc_file.bytes(),
            ) && !MapDbcRow::row_ok(
                record_view(dbc_file.bytes(), final(row_builder)@.len() - old(row_builder)@.len()),
            ),
    {
        process_rows(row_builder, dbc_file)
    }

}

/// Decodes a whole map file from its contents, as read from its path.
pub fn load_map_dbc_from_path(dbc_content: Vec<u8>) -> (r: Result<Dbc<MapDbcRow>, DecodeError>)
    ensures
        r is Ok <==> header_ok(dbc_content@) && all_records_ok::<MapDbcRow>(dbc_content@),
        r matches Ok(d) ==> header_matches(d.header, dbc_content@) && d.rows@.len() == record_count(
            dbc_content@,
        ),
        r matches Ok(d) ==> forall|k: int|
            0 <= k < record_count(dbc_content@) ==> MapDbcRow::decoded_from(
                #[trigger] d.rows@[k],
                record_view(dbc_content@, k),
            ),
{
    load_dbc(dbc_content)
}

/// A light source of a map and its parameter sets. Fields that the file stores as `f32` are kept as their bit patterns.
#[derive(Debug)]
pub struct LightDbcRow {
    pub id: u32,
    pub ref_map_id: u32,
    pub position: [u32; 3],
    pub falloff_start: u32,
    pub falloff_end: u32,
    pub params_clear: u32,
    pub params_clear_water: u32,
    pub params_storm: u32,
    pub params_storm_water: u32,
    pub params_death: u32,
}

impl DbcRowMapper for LightDbcRow {
    open spec fn row_ok(r: RowView) -> bool {
        column_in_record(r.2, 12)
    }

    open spec fn decoded_from(v: Self, r: RowView) -> bool {
        &&& v.id == column_value(r, 1)
        &&& v.ref_map_id == column_value(r, 2)
        &&& v.position@ == seq![column_value(r, 3), column_value(r, 4), column_value(r, 5)]
        &&& v.falloff_start == column_value(r, 6)
        &&& v.falloff_end == column_value(r, 7)
        &&& v.params_clear == column_value(r, 8)
        &&& v.params_clear_water == column_value(r, 9)
        &&& v.params_storm == column_value(r, 10)
        &&& v.params_storm_water == column_value(r, 11)
        &&& v.params_death == column_value(r, 12)
    }

    fn map_dbc_row(row: &DbcFileIteratorRow) -> (r: Result<Self, DecodeError>) {
        let id = row.get_number_column(1)?;
        let ref_map_id = row.get_number_column(2)?;
        let position_0 = row.get_number_column(3)?;
        let position_1 = row.get_number_column(4)?;
        let position_2 = row.get_number_column(5)?;
        let position = [position_0, position_1, position_2];
        assert(position@ =~= seq![column_value(row@, 3), column_value(row@, 4), column_value(row@, 5)]);
        let falloff_start = row.get_number_column(6)?;
        let falloff_end = row.get_number_column(7)?;
        let params_clear = row.get_number_column(8)?;
        let params_clear_water = row.get_number_column(9)?;
        let params_storm = row.get_number_column(10)?;
        let params_storm_water = row.get_number_column(11)?;
        let params_death = row.get_number_column(12)?;
        Ok(LightDbcRow { id, ref_map_id, position, falloff_start, falloff_end, params_clear, params_clear_water, params_storm, params_storm_water, params_death })
    }
}

/// Decodes a whole light file from its contents, as read from its path.
pub fn load_light_from_path(dbc_content: Vec<u8>) -> (r: Result<Dbc<LightDbcRow>, DecodeError>)
    ensures
        r is Ok <==> header_ok(dbc_content@) && all_records_ok::<LightDbcRow>(dbc_content@),
        r matches Ok(d) ==> header_matches(d.header, dbc_content@) && d.rows@.len() == record_count(
            dbc_content@,
        ),
        r matches Ok(d) ==> forall|k: int|
            0 <= k < record_count(dbc_content@) ==> LightDbcRow::decoded_from(
                #[trigger] d.rows@[k],
                record_view(dbc_content@, k),
            ),
{
    load_dbc(dbc_content)
}

/// A set of light parameters. Fields that the file stores as `f32` are kept as their bit patterns.
#[derive(Debug)]
pub struct LightParamsDbcRow {
    pub id: u32,
    pub highlight_sky: bool,
    pub light_sky_box_id: u32,
    pub cloud_type_id: u32,
    pub glow: u32,
    pub water_shallow_alpha: u32,
    pub water_deep_alpha: u32,
    pub ocean_shallow_alpha: u32,
    pub ocean_deep_alpha: u32,
}

impl DbcRowMapper for LightParamsDbcRow {
    open spec fn row_ok(r: RowView) -> bool {
        column_in_record(r.2, 9)
    }

    open spec fn decoded_from(v: Self, r: RowView) -> bool {
        &&& v.id == column_value(r, 1)
        &&& v.highlight_sky == (column_value(r, 2) == 1)
        &&& v.light_sky_box_id == column_value(r, 3)
        &&& v.cloud_type_id == column_value(r, 4)
        &&& v.glow == column_value(r, 5)
        &&& v.water_shallow_alpha == column_value(r, 6)
        &&& v.water_deep_alpha == column_value(r, 7)
        &&& v.ocean_shallow_alpha == column_value(r, 8)
        &&& v.ocean_deep_alpha == column_value(r, 9)
    }

    fn map_dbc_row(row: &DbcFileIteratorRow) -> (r: Result<Self, DecodeError>) {
        let id = row.get_number_column(1)?;
        let highlight_sky = row.get_bool_column(2)?;
        let light_sky_box_id = row.get_number_column(3)?;
        let cloud_type_id = row.get_number_column(4)?;
        let glow = row.get_number_column(5)?;
        let water_shallow_alpha = row.get_number_column(6)?;
        let water_deep_alpha = row.get_number_column(7)?;
        let ocean_shallow_alpha = row.get_number_column(8)?;
        let ocean_deep_alpha = row.get_number_column(9)?;
        Ok(LightParamsDbcRow { id, highlight_sky, light_sky_box_id, cloud_type_id, glow, water_shallow_alpha, water_deep_alpha, ocean_shallow_alpha, ocean_deep_alpha })
    }
}

/// Decodes a whole light params file from its contents, as read from its path.
pub fn load_light_params_from_path(dbc_content: Vec<u8>) -> (r: Result<Dbc<LightParamsDbcRow>, DecodeError>)
    ensures
        r is Ok <==> header_ok(dbc_content@) && all_records_ok::<LightParamsDbcRow>(dbc_content@),
        r matches Ok(d) ==> header_matches(d.header, dbc_content@) && d.rows@.len() == record_count(
            dbc_content@,
        ),
        r matches Ok(d) ==> forall|k: int|
            0 <= k < record_count(dbc_content@) ==> LightParamsDbcRow::decoded_from(
                #[trigger] d.rows@[k],
                record_view(dbc_content@, k),
            ),
{
    load_dbc(dbc_content)
}

/// A model used by spell visuals. Fields that the file stores as `f32` are kept as their bit patterns.
#[derive(Debug, Clone)]
pub struct SpellVisualEffectNameDbcRow {
    pub id: u32,
    pub name: String,
    pub file_name: String,
    pub area_effect_size: u32,
    pub scale: u32,
}

impl DbcRowMapper for SpellVisualEffectNameDbcRow {
    open spec fn row_ok(r: RowView) -> bool {
        column_in_record(r.2, 5) && column_string(r, 2) is Some && column_string(r, 3) is Some
    }

    open spec fn decoded_from(v: Self, r: RowView) -> bool {
        &&& v.id == column_value(r, 1)
        &&& Some(v.name@) == column_string(r, 2)
        &&& Some(v.file_name@) == column_string(r, 3)
        &&& v.area_effect_size == column_value(r, 4)
        &&& v.scale == column_value(r, 5)
    }

    fn map_dbc_row(row: &DbcFileIteratorRow) -> (r: Result<Self, DecodeError>) {
        let id = row.get_number_column(1)?;
        let name = row.get_string_column(2)?;
        let file_name = row.get_string_column(3)?;
        let area_effect_size = row.get_number_column(4)?;
        let scale = row.get_number_column(5)?;
        Ok(SpellVisualEffectNameDbcRow { id, name, file_name, area_effect_size, scale })
    }
}

/// Decodes a whole spell visual effect name file from its contents, as read from its path.
pub fn load_spell_visual_effect_name_dbc_from_path(dbc_content: Vec<u8>) -> (r: Result<Dbc<SpellVisualEffectNameDbcRow>, DecodeError>)
    ensures
        r is Ok <==> header_ok(dbc_content@) && all_records_ok::<SpellVisualEffectNameDbcRow>(dbc_content@),
        r matches Ok(d) ==> header_matches(d.header, dbc_content@) && d.rows@.len() == record_count(
            dbc_content@,
        ),
        r matches Ok(d) ==> forall|k: int|
            0 <= k < record_count(dbc_content@) ==> SpellVisualEffectNameDbcRow::decoded_from(
                #[trigger] d.rows@[k],
                record_view(dbc_content@, k),
            ),
{
    load_dbc(dbc_content)
}

} // verus!
