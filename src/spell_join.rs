use vstd::prelude::*;
use crate::dbc_tables::{SpellCategoryDbcRow, SpellVisualDbcRow, load_spell_category_dbc_from_path, load_spell_visual_dbc_from_path};
use crate::error::DecodeError;
use crate::join::{all_distinct, dbc_decodes, find_id_from, group_by, ids_of, record_ids, ById, HasId};
use crate::spell_flags::{
    SpellAttr0, SpellAttr1, SpellAttr2, SpellAttr3, SpellAttr4, SpellAttr5, SpellAttr6, SpellAttr7,
    SpellDispelType, SpellMechanic,
};
use crate::spell_table::{load_spell_dbc_from_path, SpellDbcRow};
use crate::dbc::{RowView, column_value, record_count, record_view, DbcRowMapper};

verus! {

/// One effect of a spell. Fields that the file stores as `f32` are kept as their bit
/// patterns.
#[derive(Debug, Clone, Copy)]
pub struct SpellEffect {
    pub id: u32,
    pub die_side_1: u32,
    pub points_per_level: u32,
    pub base_points: u32,
    pub mechanic: u32,
    pub implicit_target_a: u32,
    pub implicit_target_b: u32,
    pub spell_radius: u32,
    pub apply_aura: u32,
    pub amplitude: u32,
    pub value_multiplier: u32,
    pub chain_target: u32,
    pub item_type: u32,
    pub misc_value_a: u32,
    pub misc_value_b: u32,
    pub trigger_spell: u32,
    pub points_per_combo_point: u32,
    pub damage_multiplier: u32,
    pub effect_bonus_multiplier: u32,
}

/// Effect 1 of a spell: none when its effect id is zero.
pub open spec fn effect_1_of(row: SpellDbcRow) -> Option<SpellEffect> {
    if row.spell_effect_id_1 == 0 {
        None
    } else {
        Some(
            SpellEffect {
                id: row.spell_effect_id_1,
                die_side_1: row.effect_die_side_1,
                points_per_level: row.effect_points_per_level_1,
                base_points: row.effect_base_points_1,
                mechanic: row.effect_mechanic_1,
                implicit_target_a: row.effect_implicit_target_a_1,
                implicit_target_b: row.effect_implicit_target_b_1,
                spell_radius: row.effect_spell_radius_id_1,
                apply_aura: row.effect_apply_aura_1,
                amplitude: row.effect_amplitude_1,
                value_multiplier: row.effect_value_multiplier_1,
                chain_target: row.effect_chain_target_1,
                item_type: row.effect_item_type_1,
                misc_value_a: row.effect_misc_value_1,
                misc_value_b: row.effect_misc_value_b_1,
                trigger_spell: row.effect_trigger_spell_1,
                points_per_combo_point: row.effect_points_per_combo_point_1,
                damage_multiplier: row.effect_damage_multiplier_1,
                effect_bonus_multiplier: row.effect_bonus_multiplier_1,
            },
        )
    }
}

fn effect_1(row: &SpellDbcRow) -> (r: Option<SpellEffect>)
    ensures
        r == effect_1_of(*row),
{
    if row.spell_effect_id_1 == 0 {
        None
    } else {
        Some(
            SpellEffect {
                id: row.spell_effect_id_1,
                die_side_1: row.effect_die_side_1,
                points_per_level: row.effect_points_per_level_1,
                base_points: row.effect_base_points_1,
                mechanic: row.effect_mechanic_1,
                implicit_target_a: row.effect_implicit_target_a_1,
                implicit_target_b: row.effect_implicit_target_b_1,
                spell_radius: row.effect_spell_radius_id_1,
                apply_aura: row.effect_apply_aura_1,
                amplitude: row.effect_amplitude_1,
                value_multiplier: row.effect_value_multiplier_1,
                chain_target: row.effect_chain_target_1,
                item_type: row.effect_item_type_1,
                misc_value_a: row.effect_misc_value_1,
                misc_value_b: row.effect_misc_value_b_1,
                trigger_spell: row.effect_trigger_spell_1,
                points_per_combo_point: row.effect_points_per_combo_point_1,
                damage_multiplier: row.effect_damage_multiplier_1,
                effect_bonus_multiplier: row.effect_bonus_multiplier_1,
            },
        )
    }
}

/// Effect 2 of a spell: none when its effect id is zero.
pub open spec fn effect_2_of(row: SpellDbcRow) -> Option<SpellEffect> {
    if row.spell_effect_id_2 == 0 {
        None
    } else {
        Some(
            SpellEffect {
                id: row.spell_effect_id_2,
                die_side_1: row.effect_die_side_2,
                points_per_level: row.effect_points_per_level_2,
                base_points: row.effect_base_points_2,
                mechanic: row.effect_mechanic_2,
                implicit_target_a: row.effect_implicit_target_a_2,
                implicit_target_b: row.effect_implicit_target_b_2,
                spell_radius: row.effect_spell_radius_id_2,
                apply_aura: row.effect_apply_aura_2,
                amplitude: row.effect_amplitude_2,
                value_multiplier: row.effect_value_multiplier_2,
                chain_target: row.effect_chain_target_2,
                item_type: row.effect_item_type_2,
                misc_value_a: row.effect_misc_value_2,
                misc_value_b: row.effect_misc_value_b_2,
                trigger_spell: row.effect_trigger_spell_2,
                points_per_combo_point: row.effect_points_per_combo_point_2,
                damage_multiplier: row.effect_damage_multiplier_2,
                effect_bonus_multiplier: row.effect_bonus_multiplier_2,
            },
        )
    }
}

fn effect_2(row: &SpellDbcRow) -> (r: Option<SpellEffect>)
    ensures
        r == effect_2_of(*row),
{
    if row.spell_effect_id_2 == 0 {
        None
    } else {
        Some(
            SpellEffect {
                id: row.spell_effect_id_2,
                die_side_1: row.effect_die_side_2,
                points_per_level: row.effect_points_per_level_2,
                base_points: row.effect_base_points_2,
                mechanic: row.effect_mechanic_2,
                implicit_target_a: row.effect_implicit_target_a_2,
                implicit_target_b: row.effect_implicit_target_b_2,
                spell_radius: row.effect_spell_radius_id_2,
                apply_aura: row.effect_apply_aura_2,
                amplitude: row.effect_amplitude_2,
                value_multiplier: row.effect_value_multiplier_2,
                chain_target: row.effect_chain_target_2,
                item_type: row.effect_item_type_2,
                misc_value_a: row.effect_misc_value_2,
                misc_value_b: row.effect_misc_value_b_2,
                trigger_spell: row.effect_trigger_spell_2,
                points_per_combo_point: row.effect_points_per_combo_point_2,
                damage_multiplier: row.effect_damage_multiplier_2,
                effect_bonus_multiplier: row.effect_bonus_multiplier_2,
            },
        )
    }
}

/// Effect 3 of a spell: none when its effect id is zero.
pub open spec fn effect_3_of(row: SpellDbcRow) -> Option<SpellEffect> {
    if row.spell_effect_id_3 == 0 {
        None
    } else {
        Some(
            SpellEffect {
                id: row.spell_effect_id_3,
                die_side_1: row.effect_die_side_3,
                points_per_level: row.effect_points_per_level_3,
                base_points: row.effect_base_points_3,
                mechanic: row.effect_mechanic_3,
                implicit_target_a: row.effect_implicit_target_a_3,
                implicit_target_b: row.effect_implicit_target_b_3,
                spell_radius: row.effect_spell_radius_id_3,
                apply_aura: row.effect_apply_aura_3,
                amplitude: row.effect_amplitude_3,
                value_multiplier: row.effect_value_multiplier_3,
                chain_target: row.effect_chain_target_3,
                item_type: row.effect_item_type_3,
                misc_value_a: row.effect_misc_value_3,
                misc_value_b: row.effect_misc_value_b_3,
                trigger_spell: row.effect_trigger_spell_3,
                points_per_combo_point: row.effect_points_per_combo_point_3,
                damage_multiplier: row.effect_damage_multiplier_3,
                effect_bonus_multiplier: row.effect_bonus_multiplier_3,
            },
        )
    }
}

fn effect_3(row: &SpellDbcRow) -> (r: Option<SpellEffect>)
    ensures
        r == effect_3_of(*row),
{
    if row.spell_effect_id_3 == 0 {
        None
    } else {
        Some(
            SpellEffect {
                id: row.spell_effect_id_3,
                die_side_1: row.effect_die_side_3,
                points_per_level: row.effect_points_per_level_3,
                base_points: row.effect_base_points_3,
                mechanic: row.effect_mechanic_3,
                implicit_target_a: row.effect_implicit_target_a_3,
                implicit_target_b: row.effect_implicit_target_b_3,
                spell_radius: row.effect_spell_radius_id_3,
                apply_aura: row.effect_apply_aura_3,
                amplitude: row.effect_amplitude_3,
                value_multiplier: row.effect_value_multiplier_3,
                chain_target: row.effect_chain_target_3,
                item_type: row.effect_item_type_3,
                misc_value_a: row.effect_misc_value_3,
                misc_value_b: row.effect_misc_value_b_3,
                trigger_spell: row.effect_trigger_spell_3,
                points_per_combo_point: row.effect_points_per_combo_point_3,
                damage_multiplier: row.effect_damage_multiplier_3,
                effect_bonus_multiplier: row.effect_bonus_multiplier_3,
            },
        )
    }
}

/// A spell with its attribute words split into flags, its codes turned into variants and
/// its category and visuals looked up.
#[derive(Debug)]
pub struct ParsedSpell {
    pub id: u32,
    pub spell_name: String,
    pub spell_category: Option<SpellCategoryDbcRow>,
    pub dispel_type: SpellDispelType,
    pub mechanic: SpellMechanic,
    pub attr0: SpellAttr0,
    pub attr1: SpellAttr1,
    pub attr2: SpellAttr2,
    pub attr3: SpellAttr3,
    pub attr4: SpellAttr4,
    pub attr5: SpellAttr5,
    pub attr6: SpellAttr6,
    pub attr7: SpellAttr7,
    pub effect_1: Option<SpellEffect>,
    pub effect_2: Option<SpellEffect>,
    pub effect_3: Option<SpellEffect>,
    pub spell_visual_1: Option<SpellVisualDbcRow>,
    pub spell_visual_2: Option<SpellVisualDbcRow>,
}

/// The spells of a join.
#[derive(Debug)]
pub struct SpellJoinResult {
    pub spells: Vec<ParsedSpell>,
}

/// `found` is what a by-id lookup of `id` in `rows` gives: a row with that id, or nothing
/// when no row has it.
pub open spec fn looked_up<T: HasId>(rows: Seq<T>, id: u32, found: Option<T>) -> bool {
    match found {
        Some(row) => rows.contains(row) && row.spec_id() == id,
        None => !ids_of(rows).contains(id),
    }
}

fn lookup_copy<T: HasId + Copy>(table: &ById<T>, id: u32) -> (r: Option<T>)
    requires
        table.wf(),
    ensures
        looked_up(table.rows(), id, r),
{
    match table.get(id) {
        Some(row) => {
            let v = *row;
            proof {
                let i = choose|i: int| 0 <= i < table.rows().len() && table.rows()[i] == *row && row.spec_id() == id;
                assert(table.rows()[i] == v);
            }
            Some(v)
        },
        None => None,
    }
}

/// Joins one spell row: attribute words become flags, dispel type and mechanic become
/// variants (an unknown code is an error), effects with id zero are left out, and the
/// category and the two visuals are looked up by id.
pub fn process_raw_row(
    row: &SpellDbcRow,
    spell_dbc_categories_by_id: &ById<SpellCategoryDbcRow>,
    spell_visuals_by_id: &ById<SpellVisualDbcRow>,
) -> (r: Result<ParsedSpell, DecodeError>)
    requires
        spell_dbc_categories_by_id.wf(),
        spell_visuals_by_id.wf(),
    ensures
        r is Ok <==> row.dispel_type < 12 && row.mechanic < 32,
        r matches Err(e) ==> e == DecodeError::SchemaMismatch,
        r matches Ok(p) ==> {
            &&& p.id == row.id
            &&& p.spell_name@ == row.spell_name@
            &&& p.dispel_type.code() == row.dispel_type
            &&& p.mechanic.code() == row.mechanic
            &&& p.attr0 == SpellAttr0::spec_from_mask(row.attr0)
            &&& p.attr1 == SpellAttr1::spec_from_mask(row.attr1)
            &&& p.attr2 == SpellAttr2::spec_from_mask(row.attr2)
            &&& p.attr3 == SpellAttr3::spec_from_mask(row.attr3)
            &&& p.attr4 == SpellAttr4::spec_from_mask(row.attr4)
            &&& p.attr5 == SpellAttr5::spec_from_mask(row.attr5)
            &&& p.attr6 == SpellAttr6::spec_from_mask(row.attr6)
            &&& p.attr7 == SpellAttr7::spec_from_mask(row.attr7)
            &&& p.effect_1 == effect_1_of(*row)
            &&& p.effect_2 == effect_2_of(*row)
            &&& p.effect_3 == effect_3_of(*row)
            &&& looked_up(spell_dbc_categories_by_id.rows(), row.spell_category_id, p.spell_category)
            &&& looked_up(spell_visuals_by_id.rows(), row.spell_visual_id_1, p.spell_visual_1)
            &&& looked_up(spell_visuals_by_id.rows(), row.spell_visual_id_2, p.spell_visual_2)
        },
{
    let dispel_type = match SpellDispelType::try_from(row.dispel_type) {
        Ok(d) => d,
        Err(_) => return Err(DecodeError::SchemaMismatch),
    };
    let mechanic = match SpellMechanic::try_from(row.mechanic) {
        Ok(m) => m,
        Err(_) => return Err(DecodeError::SchemaMismatch),
    };
    Ok(
        ParsedSpell {
            id: row.id,
            spell_name: row.spell_name.clone(),
            spell_category: lookup_copy(spell_dbc_categories_by_id, row.spell_category_id),
            dispel_type,
            mechanic,
            attr0: SpellAttr0::from_mask(row.attr0),
            attr1: SpellAttr1::from_mask(row.attr1),
            attr2: SpellAttr2::from_mask(row.attr2),
            attr3: SpellAttr3::from_mask(row.attr3),
            attr4: SpellAttr4::from_mask(row.attr4),
            attr5: SpellAttr5::from_mask(row.attr5),
            attr6: SpellAttr6::from_mask(row.attr6),
            attr7: SpellAttr7::from_mask(row.attr7),
            effect_1: effect_1(row),
            effect_2: effect_2(row),
            effect_3: effect_3(row),
            spell_visual_1: lookup_copy(spell_visuals_by_id, row.spell_visual_id_1),
            spell_visual_2: lookup_copy(spell_visuals_by_id, row.spell_visual_id_2),
        },
    )
}

/// `p` is what joining `row` gives: its own fields, its flags and effects, and the
/// category and visuals looked up by id among the given category and visual ids.
pub open spec fn joined_from(p: ParsedSpell, row: SpellDbcRow, cat_ids: Seq<u32>, vis_ids: Seq<u32>) -> bool {
    &&& p.id == row.id
    &&& p.spell_name@ == row.spell_name@
    &&& p.dispel_type.code() == row.dispel_type
    &&& p.mechanic.code() == row.mechanic
    &&& p.attr0 == SpellAttr0::spec_from_mask(row.attr0)
    &&& p.attr1 == SpellAttr1::spec_from_mask(row.attr1)
    &&& p.attr2 == SpellAttr2::spec_from_mask(row.attr2)
    &&& p.attr3 == SpellAttr3::spec_from_mask(row.attr3)
    &&& p.attr4 == SpellAttr4::spec_from_mask(row.attr4)
    &&& p.attr5 == SpellAttr5::spec_from_mask(row.attr5)
    &&& p.attr6 == SpellAttr6::spec_from_mask(row.attr6)
    &&& p.attr7 == SpellAttr7::spec_from_mask(row.attr7)
    &&& p.effect_1 == effect_1_of(row)
    &&& p.effect_2 == effect_2_of(row)
    &&& p.effect_3 == effect_3_of(row)
    &&& (p.spell_category matches Some(c) ==> c.id == row.spell_category_id)
    &&& (p.spell_category is None <==> !cat_ids.contains(row.spell_category_id))
    &&& (p.spell_visual_1 matches Some(v) ==> v.id == row.spell_visual_id_1)
    &&& (p.spell_visual_1 is None <==> !vis_ids.contains(row.spell_visual_id_1))
    &&& (p.spell_visual_2 matches Some(v) ==> v.id == row.spell_visual_id_2)
    &&& (p.spell_visual_2 is None <==> !vis_ids.contains(row.spell_visual_id_2))
}

/// Record `k` of the spell file `b` has a known dispel type and mechanic.
pub open spec fn spell_codes_ok(b: Seq<u8>, k: int) -> bool {
    column_value(record_view(b, k), 3) < 12 && column_value(record_view(b, k), 4) < 32
}

/// The join succeeds: the three files decode, category and visual ids are unique, and every
/// selected spell has known codes; a requested id must be among the spells.
pub open spec fn spells_join_ok(spell: Seq<u8>, cat: Seq<u8>, vis: Seq<u8>, record_id: Option<u32>) -> bool {
    &&& dbc_decodes::<SpellDbcRow>(spell)
    &&& dbc_decodes::<SpellCategoryDbcRow>(cat)
    &&& dbc_decodes::<SpellVisualDbcRow>(vis)
    &&& all_distinct(record_ids(cat))
    &&& all_distinct(record_ids(vis))
    &&& match record_id {
        None => forall|k: int| 0 <= k < record_count(spell) ==> #[trigger] spell_codes_ok(spell, k),
        Some(id) => match find_id_from(record_ids(spell), id, 0) {
            Some(k) => spell_codes_ok(spell, k),
            None => false,
        },
    }
}

/// `row` is what record `r` of a spell file decodes to.
#[verifier::opaque]
pub open spec fn spell_record(row: SpellDbcRow, r: RowView) -> bool {
    SpellDbcRow::decoded_from(row, r)
}

/// `p` is the join of record `k` of the spell file `b`.
pub open spec fn joined_record(p: ParsedSpell, b: Seq<u8>, k: int, cat_ids: Seq<u32>, vis_ids: Seq<u32>) -> bool {
    exists|row: SpellDbcRow| #[trigger] spell_record(row, record_view(b, k)) && joined_from(p, row, cat_ids, vis_ids)
}

pub(crate) fn load_spells(spell_content: Vec<u8>) -> (r: Result<Vec<SpellDbcRow>, DecodeError>)
    ensures
        r is Ok <==> dbc_decodes::<SpellDbcRow>(spell_content@),
        r matches Ok(v) ==> v@.len() == record_count(spell_content@),
        r matches Ok(v) ==> forall|k: int|
            0 <= k < v@.len() ==> spell_record(#[trigger] v@[k], record_view(spell_content@, k))
                && spell_keys(v@[k], spell_content@, k),
{
    let ghost content = spell_content@;
    let spells = load_spell_dbc_from_path(spell_content)?.rows;
    assert forall|k: int| 0 <= k < spells@.len() implies spell_record(#[trigger] spells@[k], record_view(content, k))
        && spell_keys(spells@[k], content, k) by {
        reveal(spell_record);
        assert(SpellDbcRow::decoded_from(spells@[k], record_view(content, k)));
    }
    Ok(spells)
}

proof fn lemma_looked_up<T: HasId>(rows: Seq<T>, id: u32, found: Option<T>)
    requires
        looked_up(rows, id, found),
    ensures
        found is None <==> !ids_of(rows).contains(id),
{
    if let Some(x) = found {
        let i = choose|i: int| 0 <= i < rows.len() && rows[i] == x;
        assert(ids_of(rows)[i] == id);
    }
}

fn join_one(
    row: &SpellDbcRow,
    categories: &ById<SpellCategoryDbcRow>,
    visuals: &ById<SpellVisualDbcRow>,
) -> (r: Result<ParsedSpell, DecodeError>)
    requires
        categories.wf(),
        visuals.wf(),
    ensures
        r is Ok <==> row.dispel_type < 12 && row.mechanic < 32,
        r matches Ok(p) ==> joined_from(p, *row, ids_of(categories.rows()), ids_of(visuals.rows())),
{
    let p = process_raw_row(row, categories, visuals)?;
    proof {
        lemma_looked_up(categories.rows(), row.spell_category_id, p.spell_category);
        lemma_looked_up(visuals.rows(), row.spell_visual_id_1, p.spell_visual_1);
        lemma_looked_up(visuals.rows(), row.spell_visual_id_2, p.spell_visual_2);
    }
    Ok(p)
}

/// The fields of record `k` of the spell file `b` that the join tests.
pub open spec fn spell_keys(row: SpellDbcRow, b: Seq<u8>, k: int) -> bool {
    &&& row.id == column_value(record_view(b, k), 1)
    &&& row.dispel_type == column_value(record_view(b, k), 3)
    &&& row.mechanic == column_value(record_view(b, k), 4)
}

/// Joins the spells of a spell file with the category and visual files, each given by its
/// contents. With a record id only the first spell with that id is joined, and a missing
/// one is an error.
#[verifier::loop_isolation(false)]
pub fn get_spells_join(
    spell_content: Vec<u8>,
    spell_category_content: Vec<u8>,
    spell_visual_content: Vec<u8>,
    record_id: Option<u32>,
) -> (r: Result<SpellJoinResult, DecodeError>)
    ensures
        r is Ok <==> spells_join_ok(spell_content@, spell_category_content@, spell_visual_content@, record_id),
        r matches Ok(j) ==> record_id is Some ==> j.spells@.len() == 1 && joined_record(
            j.spells@[0],
            spell_content@,
            find_id_from(record_ids(spell_content@), record_id->0, 0)->0,
            record_ids(spell_category_content@),
            record_ids(spell_visual_content@),
        ),
        r matches Ok(j) ==> record_id is None ==> j.spells@.len() == record_count(spell_content@),
        r matches Ok(j) ==> record_id is None ==> forall|k: int|
            0 <= k < j.spells@.len() ==> joined_record(
                #[trigger] j.spells@[k],
                spell_content@,
                k,
                record_ids(spell_category_content@),
                record_ids(spell_visual_content@),
            ),
{
    let ghost content = spell_content@;
    let ghost cat_b = spell_category_content@;
    let ghost vis_b = spell_visual_content@;
    let spells = load_spells(spell_content)?;
    let category_rows = load_spell_category_dbc_from_path(spell_category_content)?.rows;
    let visual_rows = load_spell_visual_dbc_from_path(spell_visual_content)?.rows;
    assert(ids_of(category_rows@) =~= record_ids(cat_b)) by {
        assert forall|k: int| 0 <= k < category_rows@.len() implies #[trigger] ids_of(category_rows@)[k] == record_ids(cat_b)[k] by {
            assert(SpellCategoryDbcRow::decoded_from(category_rows@[k], record_view(cat_b, k)));
        }
    }
    assert(ids_of(visual_rows@) =~= record_ids(vis_b)) by {
        assert forall|k: int| 0 <= k < visual_rows@.len() implies #[trigger] ids_of(visual_rows@)[k] == record_ids(vis_b)[k] by {
            assert(SpellVisualDbcRow::decoded_from(visual_rows@[k], record_view(vis_b, k)));
        }
    }
    assert(ids_of(spells@) =~= record_ids(content)) by {
        assert forall|k: int| 0 <= k < spells@.len() implies #[trigger] ids_of(spells@)[k] == record_ids(content)[k] by {
            assert(spell_keys(spells@[k], content, k));
        }
    }
    let categories = group_by(category_rows)?;
    let visuals = group_by(visual_rows)?;
    let ghost cat_ids = record_ids(cat_b);
    let ghost vis_ids = record_ids(vis_b);
    let mut out: Vec<ParsedSpell> = Vec::new();
    let mut i: usize = 0;
    while i < spells.len()
        invariant
            i <= spells@.len(),
            categories.wf(),
            visuals.wf(),
            ids_of(categories.rows()) == cat_ids,
            ids_of(visuals.rows()) == vis_ids,
            ids_of(spells@) == record_ids(content),
            record_id is Some ==> out@.len() == 0,
            record_id matches Some(id) ==> find_id_from(record_ids(content), id, 0) == find_id_from(record_ids(content), id, i as int),
            record_id is None ==> out@.len() == i,
            record_id is None ==> forall|k: int| 0 <= k < i ==> #[trigger] spell_codes_ok(content, k),
            forall|k: int|
                0 <= k < out@.len() ==> #[trigger] joined_from(out@[k], spells@[k], cat_ids, vis_ids),
            spells@.len() == record_count(content),
            forall|k: int| 0 <= k < spells@.len() ==> spell_keys(#[trigger] spells@[k], content, k),
        decreases spells@.len() - i,
    {
        let row = &spells[i];
        assert(spell_keys(spells@[i as int], content, i as int));
        assert(ids_of(spells@)[i as int] == row.id);
        match record_id {
            Some(id) => {
                if row.id == id {
                    let parsed = join_one(row, &categories, &visuals)?;
                    let mut single: Vec<ParsedSpell> = Vec::new();
                    single.push(parsed);
                    assert(find_id_from(record_ids(content), id, i as int) == Some(i as int));
                    assert(spell_record(spells@[i as int], record_view(content, i as int)));
                    assert(joined_from(single@[0], spells@[i as int], record_ids(cat_b), record_ids(vis_b)));
                    assert(joined_record(single@[0], content, i as int, record_ids(cat_b), record_ids(vis_b)));
                    return Ok(SpellJoinResult { spells: single });
                }
            },
            None => {
                let parsed = match join_one(row, &categories, &visuals) {
                    Ok(p) => p,
                    Err(e) => {
                        assert(!spell_codes_ok(content, i as int));
                        return Err(e);
                    },
                };
                out.push(parsed);
            },
        }
        i = i + 1;
    }
    proof {
        if record_id is None {
            assert forall|k: int| 0 <= k < out@.len() implies joined_record(
                #[trigger] out@[k],
                content,
                k,
                record_ids(cat_b),
                record_ids(vis_b),
            ) by {
                assert(spell_record(spells@[k], record_view(content, k)));
                assert(joined_from(out@[k], spells@[k], record_ids(cat_b), record_ids(vis_b)));
            }
        }
    }
    match record_id {
        Some(_) => Err(DecodeError::MissingRecord),
        None => Ok(SpellJoinResult { spells: out }),
    }
}

} // verus!
