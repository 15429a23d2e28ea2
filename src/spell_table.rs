use vstd::prelude::*;
use crate::dbc::{
    column_in_record, column_offset, column_string, column_value, load_dbc, record_count,
    record_view, all_records_ok, header_matches, header_ok, Dbc, DbcFileIteratorRow,
    DbcRowMapper, RowView, HEADER_SIZE,
};
use crate::error::DecodeError;

verus! {

/// A spell. Fields that the file stores as `f32` are kept as their bit patterns.
#[derive(Debug, Clone)]
pub struct SpellDbcRow {
    pub id: u32,
    pub spell_category_id: u32,
    pub dispel_type: u32,
    pub mechanic: u32,
    pub attr0: u32,
    pub attr1: u32,
    pub attr2: u32,
    pub attr3: u32,
    pub attr4: u32,
    pub attr5: u32,
    pub attr6: u32,
    pub attr7: u32,
    pub stances: u32,
    pub unk320_1: [u8; 4],
    pub stances_not: u32,
    pub unk320_2: [u8; 4],
    pub targets: u32,
    pub target_create_type: u32,
    pub requires_spell_focus: u32,
    pub facing_caster_flags: u32,
    pub caster_aura_state: u32,
    pub target_aura_state: u32,
    pub caster_aura_state_not: u32,
    pub target_aura_state_not: u32,
    pub caster_aura_spell: u32,
    pub target_aura_spell: u32,
    pub exclude_caster_aura_spell: u32,
    pub exclude_target_aura_spell: u32,
    pub spell_cast_time_id: u32,
    pub recovery_time: u32,
    pub category_recovery_time: u32,
    pub interrupt_flags: u32,
    pub aura_interrupt_flags: u32,
    pub channel_interrupt_flags: u32,
    pub proc_flags: u32,
    pub proc_chance: u32,
    pub proc_charges: u32,
    pub max_level: u32,
    pub base_level: u32,
    pub spell_level: u32,
    pub spell_duration_id: u32,
    pub power_type: u32,
    pub mana_cost: u32,
    pub mana_cost_per_level: u32,
    pub mana_per_second: u32,
    pub mana_per_second_per_level: u32,
    pub spell_range_id: u32,
    pub projectile_speed: u32,
    pub modal_next_spell: u32,
    pub stack_amount: u32,
    pub totem_1: u32,
    pub totem_2: u32,
    pub reagent_item_id_1: u32,
    pub reagent_item_id_2: u32,
    pub reagent_item_id_3: u32,
    pub reagent_item_id_4: u32,
    pub reagent_item_id_5: u32,
    pub reagent_item_id_6: u32,
    pub reagent_item_id_7: u32,
    pub reagent_item_id_8: u32,
    pub reagent_count_1: u32,
    pub reagent_count_2: u32,
    pub reagent_count_3: u32,
    pub reagent_count_4: u32,
    pub reagent_count_5: u32,
    pub reagent_count_6: u32,
    pub reagent_count_7: u32,
    pub reagent_count_8: u32,
    pub equipped_item_class_id: u32,
    pub equipped_item_sub_class_mask: u32,
    pub equipped_item_inventory_type_mask: u32,
    pub spell_effect_id_1: u32,
    pub spell_effect_id_2: u32,
    pub spell_effect_id_3: u32,
    pub effect_die_side_1: u32,
    pub effect_die_side_2: u32,
    pub effect_die_side_3: u32,
    pub effect_points_per_level_1: u32,
    pub effect_points_per_level_2: u32,
    pub effect_points_per_level_3: u32,
    pub effect_base_points_1: u32,
    pub effect_base_points_2: u32,
    pub effect_base_points_3: u32,
    pub effect_mechanic_1: u32,
    pub effect_mechanic_2: u32,
    pub effect_mechanic_3: u32,
    pub effect_implicit_target_a_1: u32,
    pub effect_implicit_target_a_2: u32,
    pub effect_implicit_target_a_3: u32,
    pub effect_implicit_target_b_1: u32,
    pub effect_implicit_target_b_2: u32,
    pub effect_implicit_target_b_3: u32,
    pub effect_spell_radius_id_1: u32,
    pub effect_spell_radius_id_2: u32,
    pub effect_spell_radius_id_3: u32,
    pub effect_apply_aura_1: u32,
    pub effect_apply_aura_2: u32,
    pub effect_apply_aura_3: u32,
    pub effect_amplitude_1: u32,
    pub effect_amplitude_2: u32,
    pub effect_amplitude_3: u32,
    pub effect_value_multiplier_1: u32,
    pub effect_value_multiplier_2: u32,
    pub effect_value_multiplier_3: u32,
    pub effect_chain_target_1: u32,
    pub effect_chain_target_2: u32,
    pub effect_chain_target_3: u32,
    pub effect_item_type_1: u32,
    pub effect_item_type_2: u32,
    pub effect_item_type_3: u32,
    pub effect_misc_value_1: u32,
    pub effect_misc_value_2: u32,
    pub effect_misc_value_3: u32,
    pub effect_misc_value_b_1: u32,
    pub effect_misc_value_b_2: u32,
    pub effect_misc_value_b_3: u32,
    pub effect_trigger_spell_1: u32,
    pub effect_trigger_spell_2: u32,
    pub effect_trigger_spell_3: u32,
    pub effect_points_per_combo_point_1: u32,
    pub effect_points_per_combo_point_2: u32,
    pub effect_points_per_combo_point_3: u32,
    pub spell_class_mask_a_1: u32,
    pub spell_class_mask_a_2: u32,
    pub spell_class_mask_a_3: u32,
    pub spell_class_mask_b_1: u32,
    pub spell_class_mask_b_2: u32,
    pub spell_class_mask_b_3: u32,
    pub spell_class_mask_c_1: u32,
    pub spell_class_mask_c_2: u32,
    pub spell_class_mask_c_3: u32,
    pub spell_visual_id_1: u32,
    pub spell_visual_id_2: u32,
    pub spell_icon_id: u32,
    pub active_spell_icon_id: u32,
    pub spell_priority: u32,
    pub spell_name: String,
    pub spell_name_flag: u32,
    pub spell_rank_text: String,
    pub spell_rank_flags: u32,
    pub description: String,
    pub description_flags: u32,
    pub tooltip: String,
    pub tooltip_flags: u32,
    pub mana_cost_percentage: u32,
    pub start_recovery_category: u32,
    pub start_recovery_time: u32,
    pub max_target_level: u32,
    pub spell_family_name: u32,
    pub spell_family_flags_1: u32,
    pub spell_family_flags_2: u32,
    pub spell_family_flags_3: u32,
    pub max_affected_targets: u32,
    pub dmg_class: u32,
    pub prevention_type: u32,
    pub stance_bar_order: u32,
    pub effect_damage_multiplier_1: u32,
    pub effect_damage_multiplier_2: u32,
    pub effect_damage_multiplier_3: u32,
    pub min_faction_id: u32,
    pub min_reputation: u32,
    pub required_aura_vision: u32,
    pub totem_category_1: u32,
    pub totem_category_2: u32,
    pub required_area_group_id: u32,
    pub school_mask: u32,
    pub rune_cost_id: u32,
    pub spell_missile_id: u32,
    pub power_display_id: u32,
    pub effect_bonus_multiplier_1: u32,
    pub effect_bonus_multiplier_2: u32,
    pub effect_bonus_multiplier_3: u32,
    pub spell_description_variable_id: u32,
    pub spell_difficulty_id: u32,
}

impl DbcRowMapper for SpellDbcRow {
    open spec fn row_ok(r: RowView) -> bool {
        column_in_record(r.2, 234) && column_string(r, 137) is Some && column_string(r, 154) is Some && column_string(r, 171) is Some && column_string(r, 188) is Some
    }

    open spec fn decoded_from(v: Self, r: RowView) -> bool {
        &&& v.id == column_value(r, 1)
        &&& v.spell_category_id == column_value(r, 2)
        &&& v.dispel_type == column_value(r, 3)
        &&& v.mechanic == column_value(r, 4)
        &&& v.attr0 == column_value(r, 5)
        &&& v.attr1 == column_value(r, 6)
        &&& v.attr2 == column_value(r, 7)
        &&& v.attr3 == column_value(r, 8)
        &&& v.attr4 == column_value(r, 9)
        &&& v.attr5 == column_value(r, 10)
        &&& v.attr6 == column_value(r, 11)
        &&& v.attr7 == column_value(r, 12)
        &&& v.stances == column_value(r, 13)
        &&& v.unk320_1@ == r.0.subrange(column_offset(r.1, 14), column_offset(r.1, 14) + 4)
        &&& v.stances_not == column_value(r, 15)
        &&& v.unk320_2@ == r.0.subrange(column_offset(r.1, 16), column_offset(r.1, 16) + 4)
        &&& v.targets == column_value(r, 17)
        &&& v.target_create_type == column_value(r, 18)
        &&& v.requires_spell_focus == column_value(r, 19)
        &&& v.facing_caster_flags == column_value(r, 20)
        &&& v.caster_aura_state == column_value(r, 21)
        &&& v.target_aura_state == column_value(r, 22)
        &&& v.caster_aura_state_not == column_value(r, 23)
        &&& v.target_aura_state_not == column_value(r, 24)
        &&& v.caster_aura_spell == column_value(r, 25)
        &&& v.target_aura_spell == column_value(r, 26)
        &&& v.exclude_caster_aura_spell == column_value(r, 27)
        &&& v.exclude_target_aura_spell == column_value(r, 28)
        &&& v.spell_cast_time_id == column_value(r, 29)
        &&& v.recovery_time == column_value(r, 30)
        &&& v.category_recovery_time == column_value(r, 31)
        &&& v.interrupt_flags == column_value(r, 32)
        &&& v.aura_interrupt_flags == column_value(r, 33)
        &&& v.channel_interrupt_flags == column_value(r, 34)
        &&& v.proc_flags == column_value(r, 35)
        &&& v.proc_chance == column_value(r, 36)
        &&& v.proc_charges == column_value(r, 37)
        &&& v.max_level == column_value(r, 38)
        &&& v.base_level == column_value(r, 39)
        &&& v.spell_level == column_value(r, 40)
        &&& v.spell_duration_id == column_value(r, 41)
        &&& v.power_type == column_value(r, 42)
        &&& v.mana_cost == column_value(r, 43)
        &&& v.mana_cost_per_level == column_value(r, 44)
        &&& v.mana_per_second == column_value(r, 45)
        &&& v.mana_per_second_per_level == column_value(r, 46)
        &&& v.spell_range_id == column_value(r, 47)
        &&& v.projectile_speed == column_value(r, 48)
        &&& v.modal_next_spell == column_value(r, 49)
        &&& v.stack_amount == column_value(r, 50)
        &&& v.totem_1 == column_value(r, 51)
        &&& v.totem_2 == column_value(r, 52)
        &&& v.reagent_item_id_1 == column_value(r, 53)
        &&& v.reagent_item_id_2 == column_value(r, 54)
        &&& v.reagent_item_id_3 == column_value(r, 55)
        &&& v.reagent_item_id_4 == column_value(r, 56)
        &&& v.reagent_item_id_5 == column_value(r, 57)
        &&& v.reagent_item_id_6 == column_value(r, 58)
        &&& v.reagent_item_id_7 == column_value(r, 59)
        &&& v.reagent_item_id_8 == column_value(r, 60)
        &&& v.reagent_count_1 == column_value(r, 61)
        &&& v.reagent_count_2 == column_value(r, 62)
        &&& v.reagent_count_3 == column_value(r, 63)
        &&& v.reagent_count_4 == column_value(r, 64)
        &&& v.reagent_count_5 == column_value(r, 65)
        &&& v.reagent_count_6 == column_value(r, 66)
        &&& v.reagent_count_7 == column_value(r, 67)
        &&& v.reagent_count_8 == column_value(r, 68)
        &&& v.equipped_item_class_id == column_value(r, 69)
        &&& v.equipped_item_sub_class_mask == column_value(r, 70)
        &&& v.equipped_item_inventory_type_mask == column_value(r, 71)
        &&& v.spell_effect_id_1 == column_value(r, 72)
        &&& v.spell_effect_id_2 == column_value(r, 73)
        &&& v.spell_effect_id_3 == column_value(r, 74)
        &&& v.effect_die_side_1 == column_value(r, 75)
        &&& v.effect_die_side_2 == column_value(r, 76)
        &&& v.effect_die_side_3 == column_value(r, 77)
        &&& v.effect_points_per_level_1 == column_value(r, 78)
        &&& v.effect_points_per_level_2 == column_value(r, 79)
        &&& v.effect_points_per_level_3 == column_value(r, 80)
        &&& v.effect_base_points_1 == column_value(r, 81)
        &&& v.effect_base_points_2 == column_value(r, 82)
        &&& v.effect_base_points_3 == column_value(r, 83)
        &&& v.effect_mechanic_1 == column_value(r, 84)
        &&& v.effect_mechanic_2 == column_value(r, 85)
        &&& v.effect_mechanic_3 == column_value(r, 86)
        &&& v.effect_implicit_target_a_1 == column_value(r, 87)
        &&& v.effect_implicit_target_a_2 == column_value(r, 88)
        &&& v.effect_implicit_target_a_3 == column_value(r, 89)
        &&& v.effect_implicit_target_b_1 == column_value(r, 90)
        &&& v.effect_implicit_target_b_2 == column_value(r, 91)
        &&& v.effect_implicit_target_b_3 == column_value(r, 92)
        &&& v.effect_spell_radius_id_1 == column_value(r, 93)
        &&& v.effect_spell_radius_id_2 == column_value(r, 94)
        &&& v.effect_spell_radius_id_3 == column_value(r, 95)
        &&& v.effect_apply_aura_1 == column_value(r, 96)
        &&& v.effect_apply_aura_2 == column_value(r, 97)
        &&& v.effect_apply_aura_3 == column_value(r, 98)
        &&& v.effect_amplitude_1 == column_value(r, 99)
        &&& v.effect_amplitude_2 == column_value(r, 100)
        &&& v.effect_amplitude_3 == column_value(r, 101)
        &&& v.effect_value_multiplier_1 == column_value(r, 102)
        &&& v.effect_value_multiplier_2 == column_value(r, 103)
        &&& v.effect_value_multiplier_3 == column_value(r, 104)
        &&& v.effect_chain_target_1 == column_value(r, 105)
        &&& v.effect_chain_target_2 == column_value(r, 106)
        &&& v.effect_chain_target_3 == column_value(r, 107)
        &&& v.effect_item_type_1 == column_value(r, 108)
        &&& v.effect_item_type_2 == column_value(r, 109)
        &&& v.effect_item_type_3 == column_value(r, 110)
        &&& v.effect_misc_value_1 == column_value(r, 111)
        &&& v.effect_misc_value_2 == column_value(r, 112)
        &&& v.effect_misc_value_3 == column_value(r, 113)
        &&& v.effect_misc_value_b_1 == column_value(r, 114)
        &&& v.effect_misc_value_b_2 == column_value(r, 115)
        &&& v.effect_misc_value_b_3 == column_value(r, 116)
        &&& v.effect_trigger_spell_1 == column_value(r, 117)
        &&& v.effect_trigger_spell_2 == column_value(r, 118)
        &&& v.effect_trigger_spell_3 == column_value(r, 119)
        &&& v.effect_points_per_combo_point_1 == column_value(r, 120)
        &&& v.effect_points_per_combo_point_2 == column_value(r, 121)
        &&& v.effect_points_per_combo_point_3 == column_value(r, 122)
        &&& v.spell_class_mask_a_1 == column_value(r, 123)
        &&& v.spell_class_mask_a_2 == column_value(r, 124)
        &&& v.spell_class_mask_a_3 == column_value(r, 125)
        &&& v.spell_class_mask_b_1 == column_value(r, 126)
        &&& v.spell_class_mask_b_2 == column_value(r, 127)
        &&& v.spell_class_mask_b_3 == column_value(r, 128)
        &&& v.spell_class_mask_c_1 == column_value(r, 129)
        &&& v.spell_class_mask_c_2 == column_value(r, 130)
        &&& v.spell_class_mask_c_3 == column_value(r, 131)
        &&& v.spell_visual_id_1 == column_value(r, 132)
        &&& v.spell_visual_id_2 == column_value(r, 133)
        &&& v.spell_icon_id == column_value(r, 134)
        &&& v.active_spell_icon_id == column_value(r, 135)
        &&& v.spell_priority == column_value(r, 136)
        &&& Some(v.spell_name@) == column_string(r, 137)
        &&& v.spell_name_flag == column_value(r, 153)
        &&& Some(v.spell_rank_text@) == column_string(r, 154)
        &&& v.spell_rank_flags == column_value(r, 170)
        &&& Some(v.description@) == column_string(r, 171)
        &&& v.description_flags == column_value(r, 187)
        &&& Some(v.tooltip@) == column_string(r, 188)
        &&& v.tooltip_flags == column_value(r, 204)
        &&& v.mana_cost_percentage == column_value(r, 205)
        &&& v.start_recovery_category == column_value(r, 206)
        &&& v.start_recovery_time == column_value(r, 207)
        &&& v.max_target_level == column_value(r, 208)
        &&& v.spell_family_name == column_value(r, 209)
        &&& v.spell_family_flags_1 == column_value(r, 210)
        &&& v.spell_family_flags_2 == column_value(r, 211)
        &&& v.spell_family_flags_3 == column_value(r, 212)
        &&& v.max_affected_targets == column_value(r, 213)
        &&& v.dmg_class == column_value(r, 214)
        &&& v.prevention_type == column_value(r, 215)
        &&& v.stance_bar_order == column_value(r, 216)
        &&& v.effect_damage_multiplier_1 == column_value(r, 217)
        &&& v.effect_damage_multiplier_2 == column_value(r, 218)
        &&& v.effect_damage_multiplier_3 == column_value(r, 219)
        &&& v.min_faction_id == column_value(r, 220)
        &&& v.min_reputation == column_value(r, 221)
        &&& v.required_aura_vision == column_value(r, 222)
        &&& v.totem_category_1 == column_value(r, 223)
        &&& v.totem_category_2 == column_value(r, 224)
        &&& v.required_area_group_id == column_value(r, 225)
        &&& v.school_mask == column_value(r, 226)
        &&& v.rune_cost_id == column_value(r, 227)
        &&& v.spell_missile_id == column_value(r, 228)
        &&& v.power_display_id == column_value(r, 229)
        &&& v.effect_bonus_multiplier_1 == column_value(r, 230)
        &&& v.effect_bonus_multiplier_2 == column_value(r, 231)
        &&& v.effect_bonus_multiplier_3 == column_value(r, 232)
        &&& v.spell_description_variable_id == column_value(r, 233)
        &&& v.spell_difficulty_id == column_value(r, 234)
    }

    #[verifier::rlimit(100)]
    fn map_dbc_row(row: &DbcFileIteratorRow) -> (r: Result<Self, DecodeError>) {
        let id = row.get_number_column(1)?;
        let spell_category_id = row.get_number_column(2)?;
        let dispel_type = row.get_number_column(3)?;
        let mechanic = row.get_number_column(4)?;
        let attr0 = row.get_number_column(5)?;
        let attr1 = row.get_number_column(6)?;
        let attr2 = row.get_number_column(7)?;
        let attr3 = row.get_number_column(8)?;
        let attr4 = row.get_number_column(9)?;
        let attr5 = row.get_number_column(10)?;
        let attr6 = row.get_number_column(11)?;
        let attr7 = row.get_number_column(12)?;
        let stances = row.get_number_column(13)?;
        let unk320_1 = row.get_column_raw(14)?;
        let stances_not = row.get_number_column(15)?;
        let unk320_2 = row.get_column_raw(16)?;
        let targets = row.get_number_column(17)?;
        let target_create_type = row.get_number_column(18)?;
        let requires_spell_focus = row.get_number_column(19)?;
        let facing_caster_flags = row.get_number_column(20)?;
        let caster_aura_state = row.get_number_column(21)?;
        let target_aura_state = row.get_number_column(22)?;
        let caster_aura_state_not = row.get_number_column(23)?;
        let target_aura_state_not = row.get_number_column(24)?;
        let caster_aura_spell = row.get_number_column(25)?;
        let target_aura_spell = row.get_number_column(26)?;
        let exclude_caster_aura_spell = row.get_number_column(27)?;
        let exclude_target_aura_spell = row.get_number_column(28)?;
        let spell_cast_time_id = row.get_number_column(29)?;
        let recovery_time = row.get_number_column(30)?;
        let category_recovery_time = row.get_number_column(31)?;
        let interrupt_flags = row.get_number_column(32)?;
        let aura_interrupt_flags = row.get_number_column(33)?;
        let channel_interrupt_flags = row.get_number_column(34)?;
        let proc_flags = row.get_number_column(35)?;
        let proc_chance = row.get_number_column(36)?;
        let proc_charges = row.get_number_column(37)?;
        let max_level = row.get_number_column(38)?;
        let base_level = row.get_number_column(39)?;
        let spell_level = row.get_number_column(40)?;
        let spell_duration_id = row.get_number_column(41)?;
        let power_type = row.get_number_column(42)?;
        let mana_cost = row.get_number_column(43)?;
        let mana_cost_per_level = row.get_number_column(44)?;
        let mana_per_second = row.get_number_column(45)?;
        let mana_per_second_per_level = row.get_number_column(46)?;
        let spell_range_id = row.get_number_column(47)?;
        let projectile_speed = row.get_number_column(48)?;
        let modal_next_spell = row.get_number_column(49)?;
        let stack_amount = row.get_number_column(50)?;
        let totem_1 = row.get_number_column(51)?;
        let totem_2 = row.get_number_column(52)?;
        let reagent_item_id_1 = row.get_number_column(53)?;
        let reagent_item_id_2 = row.get_number_column(54)?;
        let reagent_item_id_3 = row.get_number_column(55)?;
        let reagent_item_id_4 = row.get_number_column(56)?;
        let reagent_item_id_5 = row.get_number_column(57)?;
        let reagent_item_id_6 = row.get_number_column(58)?;
        let reagent_item_id_7 = row.get_number_column(59)?;
        let reagent_item_id_8 = row.get_number_column(60)?;
        let reagent_count_1 = row.get_number_column(61)?;
        let reagent_count_2 = row.get_number_column(62)?;
        let reagent_count_3 = row.get_number_column(63)?;
        let reagent_count_4 = row.get_number_column(64)?;
        let reagent_count_5 = row.get_number_column(65)?;
        let reagent_count_6 = row.get_number_column(66)?;
        let reagent_count_7 = row.get_number_column(67)?;
        let reagent_count_8 = row.get_number_column(68)?;
        let equipped_item_class_id = row.get_number_column(69)?;
        let equipped_item_sub_class_mask = row.get_number_column(70)?;
        let equipped_item_inventory_type_mask = row.get_number_column(71)?;
        let spell_effect_id_1 = row.get_number_column(72)?;
        let spell_effect_id_2 = row.get_number_column(73)?;
        let spell_effect_id_3 = row.get_number_column(74)?;
        let effect_die_side_1 = row.get_number_column(75)?;
        let effect_die_side_2 = row.get_number_column(76)?;
        let effect_die_side_3 = row.get_number_column(77)?;
        let effect_points_per_level_1 = row.get_number_column(78)?;
        let effect_points_per_level_2 = row.get_number_column(79)?;
        let effect_points_per_level_3 = row.get_number_column(80)?;
        let effect_base_points_1 = row.get_number_column(81)?;
        let effect_base_points_2 = row.get_number_column(82)?;
        let effect_base_points_3 = row.get_number_column(83)?;
        let effect_mechanic_1 = row.get_number_column(84)?;
        let effect_mechanic_2 = row.get_number_column(85)?;
        let effect_mechanic_3 = row.get_number_column(86)?;
        let effect_implicit_target_a_1 = row.get_number_column(87)?;
        let effect_implicit_target_a_2 = row.get_number_column(88)?;
        let effect_implicit_target_a_3 = row.get_number_column(89)?;
        let effect_implicit_target_b_1 = row.get_number_column(90)?;
        let effect_implicit_target_b_2 = row.get_number_column(91)?;
        let effect_implicit_target_b_3 = row.get_number_column(92)?;
        let effect_spell_radius_id_1 = row.get_number_column(93)?;
        let effect_spell_radius_id_2 = row.get_number_column(94)?;
        let effect_spell_radius_id_3 = row.get_number_column(95)?;
        let effect_apply_aura_1 = row.get_number_column(96)?;
        let effect_apply_aura_2 = row.get_number_column(97)?;
        let effect_apply_aura_3 = row.get_number_column(98)?;
        let effect_amplitude_1 = row.get_number_column(99)?;
        let effect_amplitude_2 = row.get_number_column(100)?;
        let effect_amplitude_3 = row.get_number_column(101)?;
        let effect_value_multiplier_1 = row.get_number_column(102)?;
        let effect_value_multiplier_2 = row.get_number_column(103)?;
        let effect_value_multiplier_3 = row.get_number_column(104)?;
        let effect_chain_target_1 = row.get_number_column(105)?;
        let effect_chain_target_2 = row.get_number_column(106)?;
        let effect_chain_target_3 = row.get_number_column(107)?;
        let effect_item_type_1 = row.get_number_column(108)?;
        let effect_item_type_2 = row.get_number_column(109)?;
        let effect_item_type_3 = row.get_number_column(110)?;
        let effect_misc_value_1 = row.get_number_column(111)?;
        let effect_misc_value_2 = row.get_number_column(112)?;
        let effect_misc_value_3 = row.get_number_column(113)?;
        let effect_misc_value_b_1 = row.get_number_column(114)?;
        let effect_misc_value_b_2 = row.get_number_column(115)?;
        let effect_misc_value_b_3 = row.get_number_column(116)?;
        let effect_trigger_spell_1 = row.get_number_column(117)?;
        let effect_trigger_spell_2 = row.get_number_column(118)?;
        let effect_trigger_spell_3 = row.get_number_column(119)?;
        let effect_points_per_combo_point_1 = row.get_number_column(120)?;
        let effect_points_per_combo_point_2 = row.get_number_column(121)?;
        let effect_points_per_combo_point_3 = row.get_number_column(122)?;
        let spell_class_mask_a_1 = row.get_number_column(123)?;
        let spell_class_mask_a_2 = row.get_number_column(124)?;
        let spell_class_mask_a_3 = row.get_number_column(125)?;
        let spell_class_mask_b_1 = row.get_number_column(126)?;
        let spell_class_mask_b_2 = row.get_number_column(127)?;
        let spell_class_mask_b_3 = row.get_number_column(128)?;
        let spell_class_mask_c_1 = row.get_number_column(129)?;
        let spell_class_mask_c_2 = row.get_number_column(130)?;
        let spell_class_mask_c_3 = row.get_number_column(131)?;
        let spell_visual_id_1 = row.get_number_column(132)?;
        let spell_visual_id_2 = row.get_number_column(133)?;
        let spell_icon_id = row.get_number_column(134)?;
        let active_spell_icon_id = row.get_number_column(135)?;
        let spell_priority = row.get_number_column(136)?;
        let spell_name = row.get_string_column(137)?;
        let spell_name_flag = row.get_number_column(153)?;
        let spell_rank_text = row.get_string_column(154)?;
        let spell_rank_flags = row.get_number_column(170)?;
        let description = row.get_string_column(171)?;
        let description_flags = row.get_number_column(187)?;
        let tooltip = row.get_string_column(188)?;
        let tooltip_flags = row.get_number_column(204)?;
        let mana_cost_percentage = row.get_number_column(205)?;
        let start_recovery_category = row.get_number_column(206)?;
        let start_recovery_time = row.get_number_column(207)?;
        let max_target_level = row.get_number_column(208)?;
        let spell_family_name = row.get_number_column(209)?;
        let spell_family_flags_1 = row.get_number_column(210)?;
        let spell_family_flags_2 = row.get_number_column(211)?;
        let spell_family_flags_3 = row.get_number_column(212)?;
        let max_affected_targets = row.get_number_column(213)?;
        let dmg_class = row.get_number_column(214)?;
        let prevention_type = row.get_number_column(215)?;
        let stance_bar_order = row.get_number_column(216)?;
        let effect_damage_multiplier_1 = row.get_number_column(217)?;
        let effect_damage_multiplier_2 = row.get_number_column(218)?;
        let effect_damage_multiplier_3 = row.get_number_column(219)?;
        let min_faction_id = row.get_number_column(220)?;
        let min_reputation = row.get_number_column(221)?;
        let required_aura_vision = row.get_number_column(222)?;
        let totem_category_1 = row.get_number_column(223)?;
        let totem_category_2 = row.get_number_column(224)?;
        let required_area_group_id = row.get_number_column(225)?;
        let school_mask = row.get_number_column(226)?;
        let rune_cost_id = row.get_number_column(227)?;
        let spell_missile_id = row.get_number_column(228)?;
        let power_display_id = row.get_number_column(229)?;
        let effect_bonus_multiplier_1 = row.get_number_column(230)?;
        let effect_bonus_multiplier_2 = row.get_number_column(231)?;
        let effect_bonus_multiplier_3 = row.get_number_column(232)?;
        let spell_description_variable_id = row.get_number_column(233)?;
        let spell_difficulty_id = row.get_number_column(234)?;
        Ok(SpellDbcRow {
            id,
            spell_category_id,
            dispel_type,
            mechanic,
            attr0,
            attr1,
            attr2,
            attr3,
            attr4,
            attr5,
            attr6,
            attr7,
            stances,
            unk320_1,
            stances_not,
            unk320_2,
            targets,
            target_create_type,
            requires_spell_focus,
            facing_caster_flags,
            caster_aura_state,
            target_aura_state,
            caster_aura_state_not,
            target_aura_state_not,
            caster_aura_spell,
            target_aura_spell,
            exclude_caster_aura_spell,
            exclude_target_aura_spell,
            spell_cast_time_id,
            recovery_time,
            category_recovery_time,
            interrupt_flags,
            aura_interrupt_flags,
            channel_interrupt_flags,
            proc_flags,
            proc_chance,
            proc_charges,
            max_level,
            base_level,
            spell_level,
            spell_duration_id,
            power_type,
            mana_cost,
            mana_cost_per_level,
            mana_per_second,
            mana_per_second_per_level,
            spell_range_id,
            projectile_speed,
            modal_next_spell,
            stack_amount,
            totem_1,
            totem_2,
            reagent_item_id_1,
            reagent_item_id_2,
            reagent_item_id_3,
            reagent_item_id_4,
            reagent_item_id_5,
            reagent_item_id_6,
            reagent_item_id_7,
            reagent_item_id_8,
            reagent_count_1,
            reagent_count_2,
            reagent_count_3,
            reagent_count_4,
            reagent_count_5,
            reagent_count_6,
            reagent_count_7,
            reagent_count_8,
            equipped_item_class_id,
            equipped_item_sub_class_mask,
            equipped_item_inventory_type_mask,
            spell_effect_id_1,
            spell_effect_id_2,
            spell_effect_id_3,
            effect_die_side_1,
            effect_die_side_2,
            effect_die_side_3,
            effect_points_per_level_1,
            effect_points_per_level_2,
            effect_points_per_level_3,
            effect_base_points_1,
            effect_base_points_2,
            effect_base_points_3,
            effect_mechanic_1,
            effect_mechanic_2,
            effect_mechanic_3,
            effect_implicit_target_a_1,
            effect_implicit_target_a_2,
            effect_implicit_target_a_3,
            effect_implicit_target_b_1,
            effect_implicit_target_b_2,
            effect_implicit_target_b_3,
            effect_spell_radius_id_1,
            effect_spell_radius_id_2,
            effect_spell_radius_id_3,
            effect_apply_aura_1,
            effect_apply_aura_2,
            effect_apply_aura_3,
            effect_amplitude_1,
            effect_amplitude_2,
            effect_amplitude_3,
            effect_value_multiplier_1,
            effect_value_multiplier_2,
            effect_value_multiplier_3,
            effect_chain_target_1,
            effect_chain_target_2,
            effect_chain_target_3,
            effect_item_type_1,
            effect_item_type_2,
            effect_item_type_3,
            effect_misc_value_1,
            effect_misc_value_2,
            effect_misc_value_3,
            effect_misc_value_b_1,
            effect_misc_value_b_2,
            effect_misc_value_b_3,
            effect_trigger_spell_1,
            effect_trigger_spell_2,
            effect_trigger_spell_3,
            effect_points_per_combo_point_1,
            effect_points_per_combo_point_2,
            effect_points_per_combo_point_3,
            spell_class_mask_a_1,
            spell_class_mask_a_2,
            spell_class_mask_a_3,
            spell_class_mask_b_1,
            spell_class_mask_b_2,
            spell_class_mask_b_3,
            spell_class_mask_c_1,
            spell_class_mask_c_2,
            spell_class_mask_c_3,
            spell_visual_id_1,
            spell_visual_id_2,
            spell_icon_id,
            active_spell_icon_id,
            spell_priority,
            spell_name,
            spell_name_flag,
            spell_rank_text,
            spell_rank_flags,
            description,
            description_flags,
            tooltip,
            tooltip_flags,
            mana_cost_percentage,
            start_recovery_category,
            start_recovery_time,
            max_target_level,
            spell_family_name,
            spell_family_flags_1,
            spell_family_flags_2,
            spell_family_flags_3,
            max_affected_targets,
            dmg_class,
            prevention_type,
            stance_bar_order,
            effect_damage_multiplier_1,
            effect_damage_multiplier_2,
            effect_damage_multiplier_3,
            min_faction_id,
            min_reputation,
            required_aura_vision,
            totem_category_1,
            totem_category_2,
            required_area_group_id,
            school_mask,
            rune_cost_id,
            spell_missile_id,
            power_display_id,
            effect_bonus_multiplier_1,
            effect_bonus_multiplier_2,
            effect_bonus_multiplier_3,
            spell_description_variable_id,
            spell_difficulty_id,
        })
    }
}

/// Decodes a whole spell file from its contents, as read from its path.
pub fn load_spell_dbc_from_path(dbc_content: Vec<u8>) -> (r: Result<Dbc<SpellDbcRow>, DecodeError>)
    ensures
        r is Ok <==> header_ok(dbc_content@) && all_records_ok::<SpellDbcRow>(dbc_content@),
        r matches Ok(d) ==> header_matches(d.header, dbc_content@) && d.rows@.len() == record_count(
            dbc_content@,
        ),
        r matches Ok(d) ==> forall|k: int|
            0 <= k < record_count(dbc_content@) ==> SpellDbcRow::decoded_from(
                #[trigger] d.rows@[k],
                record_view(dbc_content@, k),
            ),
{
    load_dbc(dbc_content)
}

} // verus!
