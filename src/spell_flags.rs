use vstd::prelude::*;

verus! {

/// Every bit of `flag` is set in `value`.
pub open spec fn has_flag(value: u32, flag: u32) -> bool {
    value & flag == flag
}

/// Returns true when every bit of `flag` is set in `value`.
pub fn has_bit_flag(value: u32, flag: u32) -> (r: bool)
    ensures
        r == has_flag(value, flag),
{
    value & flag == flag
}

/// Each of the 32 bits of an attribute word is reflected by exactly one flag: when flag
/// `k` is read from bit `k` of `value`, putting the masks of the set flags back together
/// gives `value` again.
pub proof fn lemma_flags_reassemble(b0: bool, b1: bool, b2: bool, b3: bool, b4: bool, b5: bool, b6: bool, b7: bool, b8: bool, b9: bool, b10: bool, b11: bool, b12: bool, b13: bool, b14: bool, b15: bool, b16: bool, b17: bool, b18: bool, b19: bool, b20: bool, b21: bool, b22: bool, b23: bool, b24: bool, b25: bool, b26: bool, b27: bool, b28: bool, b29: bool, b30: bool, b31: bool, value: u32)
    requires
        b0 == (value & 0x00000001u32 == 0x00000001u32),
        b1 == (value & 0x00000002u32 == 0x00000002u32),
        b2 == (value & 0x00000004u32 == 0x00000004u32),
        b3 == (value & 0x00000008u32 == 0x00000008u32),
        b4 == (value & 0x00000010u32 == 0x00000010u32),
        b5 == (value & 0x00000020u32 == 0x00000020u32),
        b6 == (value & 0x00000040u32 == 0x00000040u32),
        b7 == (value & 0x00000080u32 == 0x00000080u32),
        b8 == (value & 0x00000100u32 == 0x00000100u32),
        b9 == (value & 0x00000200u32 == 0x00000200u32),
        b10 == (value & 0x00000400u32 == 0x00000400u32),
        b11 == (value & 0x00000800u32 == 0x00000800u32),
        b12 == (value & 0x00001000u32 == 0x00001000u32),
        b13 == (value & 0x00002000u32 == 0x00002000u32),
        b14 == (value & 0x00004000u32 == 0x00004000u32),
        b15 == (value & 0x00008000u32 == 0x00008000u32),
        b16 == (value & 0x00010000u32 == 0x00010000u32),
        b17 == (value & 0x00020000u32 == 0x00020000u32),
        b18 == (value & 0x00040000u32 == 0x00040000u32),
        b19 == (value & 0x00080000u32 == 0x00080000u32),
        b20 == (value & 0x00100000u32 == 0x00100000u32),
        b21 == (value & 0x00200000u32 == 0x00200000u32),
        b22 == (value & 0x00400000u32 == 0x00400000u32),
        b23 == (value & 0x00800000u32 == 0x00800000u32),
        b24 == (value & 0x01000000u32 == 0x01000000u32),
        b25 == (value & 0x02000000u32 == 0x02000000u32),
        b26 == (value & 0x04000000u32 == 0x04000000u32),
        b27 == (value & 0x08000000u32 == 0x08000000u32),
        b28 == (value & 0x10000000u32 == 0x10000000u32),
        b29 == (value & 0x20000000u32 == 0x20000000u32),
        b30 == (value & 0x40000000u32 == 0x40000000u32),
        b31 == (value & 0x80000000u32 == 0x80000000u32),
    ensures
        ((if b0 { 0x00000001u32 } else { 0u32 })
        | (if b1 { 0x00000002u32 } else { 0u32 })
        | (if b2 { 0x00000004u32 } else { 0u32 })
        | (if b3 { 0x00000008u32 } else { 0u32 })
        | (if b4 { 0x00000010u32 } else { 0u32 })
        | (if b5 { 0x00000020u32 } else { 0u32 })
        | (if b6 { 0x00000040u32 } else { 0u32 })
        | (if b7 { 0x00000080u32 } else { 0u32 })
        | (if b8 { 0x00000100u32 } else { 0u32 })
        | (if b9 { 0x00000200u32 } else { 0u32 })
        | (if b10 { 0x00000400u32 } else { 0u32 })
        | (if b11 { 0x00000800u32 } else { 0u32 })
        | (if b12 { 0x00001000u32 } else { 0u32 })
        | (if b13 { 0x00002000u32 } else { 0u32 })
        | (if b14 { 0x00004000u32 } else { 0u32 })
        | (if b15 { 0x00008000u32 } else { 0u32 }))
        | ((if b16 { 0x00010000u32 } else { 0u32 })
        | (if b17 { 0x00020000u32 } else { 0u32 })
        | (if b18 { 0x00040000u32 } else { 0u32 })
        | (if b19 { 0x00080000u32 } else { 0u32 })
        | (if b20 { 0x00100000u32 } else { 0u32 })
        | (if b21 { 0x00200000u32 } else { 0u32 })
        | (if b22 { 0x00400000u32 } else { 0u32 })
        | (if b23 { 0x00800000u32 } else { 0u32 })
        | (if b24 { 0x01000000u32 } else { 0u32 })
        | (if b25 { 0x02000000u32 } else { 0u32 })
        | (if b26 { 0x04000000u32 } else { 0u32 })
        | (if b27 { 0x08000000u32 } else { 0u32 })
        | (if b28 { 0x10000000u32 } else { 0u32 })
        | (if b29 { 0x20000000u32 } else { 0u32 })
        | (if b30 { 0x40000000u32 } else { 0u32 })
        | (if b31 { 0x80000000u32 } else { 0u32 })) == value,
{
    assert(((if b0 { 0x00000001u32 } else { 0u32 })
        | (if b1 { 0x00000002u32 } else { 0u32 })
        | (if b2 { 0x00000004u32 } else { 0u32 })
        | (if b3 { 0x00000008u32 } else { 0u32 })
        | (if b4 { 0x00000010u32 } else { 0u32 })
        | (if b5 { 0x00000020u32 } else { 0u32 })
        | (if b6 { 0x00000040u32 } else { 0u32 })
        | (if b7 { 0x00000080u32 } else { 0u32 })
        | (if b8 { 0x00000100u32 } else { 0u32 })
        | (if b9 { 0x00000200u32 } else { 0u32 })
        | (if b10 { 0x00000400u32 } else { 0u32 })
        | (if b11 { 0x00000800u32 } else { 0u32 })
        | (if b12 { 0x00001000u32 } else { 0u32 })
        | (if b13 { 0x00002000u32 } else { 0u32 })
        | (if b14 { 0x00004000u32 } else { 0u32 })
        | (if b15 { 0x00008000u32 } else { 0u32 }))
        | ((if b16 { 0x00010000u32 } else { 0u32 })
        | (if b17 { 0x00020000u32 } else { 0u32 })
        | (if b18 { 0x00040000u32 } else { 0u32 })
        | (if b19 { 0x00080000u32 } else { 0u32 })
        | (if b20 { 0x00100000u32 } else { 0u32 })
        | (if b21 { 0x00200000u32 } else { 0u32 })
        | (if b22 { 0x00400000u32 } else { 0u32 })
        | (if b23 { 0x00800000u32 } else { 0u32 })
        | (if b24 { 0x01000000u32 } else { 0u32 })
        | (if b25 { 0x02000000u32 } else { 0u32 })
        | (if b26 { 0x04000000u32 } else { 0u32 })
        | (if b27 { 0x08000000u32 } else { 0u32 })
        | (if b28 { 0x10000000u32 } else { 0u32 })
        | (if b29 { 0x20000000u32 } else { 0u32 })
        | (if b30 { 0x40000000u32 } else { 0u32 })
        | (if b31 { 0x80000000u32 } else { 0u32 })) == value) by (bit_vector)
        requires
            b0 == (value & 0x00000001u32 == 0x00000001u32),
            b1 == (value & 0x00000002u32 == 0x00000002u32),
            b2 == (value & 0x00000004u32 == 0x00000004u32),
            b3 == (value & 0x00000008u32 == 0x00000008u32),
            b4 == (value & 0x00000010u32 == 0x00000010u32),
            b5 == (value & 0x00000020u32 == 0x00000020u32),
            b6 == (value & 0x00000040u32 == 0x00000040u32),
            b7 == (value & 0x00000080u32 == 0x00000080u32),
            b8 == (value & 0x00000100u32 == 0x00000100u32),
            b9 == (value & 0x00000200u32 == 0x00000200u32),
            b10 == (value & 0x00000400u32 == 0x00000400u32),
            b11 == (value & 0x00000800u32 == 0x00000800u32),
            b12 == (value & 0x00001000u32 == 0x00001000u32),
            b13 == (value & 0x00002000u32 == 0x00002000u32),
            b14 == (value & 0x00004000u32 == 0x00004000u32),
            b15 == (value & 0x00008000u32 == 0x00008000u32),
            b16 == (value & 0x00010000u32 == 0x00010000u32),
            b17 == (value & 0x00020000u32 == 0x00020000u32),
            b18 == (value & 0x00040000u32 == 0x00040000u32),
            b19 == (value & 0x00080000u32 == 0x00080000u32),
            b20 == (value & 0x00100000u32 == 0x00100000u32),
            b21 == (value & 0x00200000u32 == 0x00200000u32),
            b22 == (value & 0x00400000u32 == 0x00400000u32),
            b23 == (value & 0x00800000u32 == 0x00800000u32),
            b24 == (value & 0x01000000u32 == 0x01000000u32),
            b25 == (value & 0x02000000u32 == 0x02000000u32),
            b26 == (value & 0x04000000u32 == 0x04000000u32),
            b27 == (value & 0x08000000u32 == 0x08000000u32),
            b28 == (value & 0x10000000u32 == 0x10000000u32),
            b29 == (value & 0x20000000u32 == 0x20000000u32),
            b30 == (value & 0x40000000u32 == 0x40000000u32),
            b31 == (value & 0x80000000u32 == 0x80000000u32),
    ;
}

/// The flags of attribute word 0 of a spell; field `k` (from zero) is bit `k`.
#[derive(Debug, Clone, Copy)]
pub struct SpellAttr0 {
    pub unk0: bool,
    pub req_ammo: bool,
    pub on_next_swing: bool,
    pub is_replenishment: bool,
    pub ability: bool,
    pub trade_spell: bool,
    pub passive: bool,
    pub hidden_clientside: bool,
    pub hide_in_combat_log: bool,
    pub target_main_hand_item: bool,
    pub on_next_swing_2: bool,
    pub unk11: bool,
    pub daytime_only: bool,
    pub night_only: bool,
    pub indoors_only: bool,
    pub outdoors_only: bool,
    pub not_shape_shift: bool,
    pub only_in_stealth: bool,
    pub dont_affect_sheath_state: bool,
    pub level_damage_calculation: bool,
    pub stop_attack_target: bool,
    pub impossible_dodge_parry_block: bool,
    pub cast_track_target: bool,
    pub can_cast_when_dead: bool,
    pub can_cast_when_mounted: bool,
    pub disabled_while_active: bool,
    pub negative_1: bool,
    pub can_cast_when_sitting: bool,
    pub cant_used_in_combat: bool,
    pub unaffected_by_invulnerability: bool,
    pub heartbeat_resist_check: bool,
    pub cant_cancel: bool,
}

impl SpellAttr0 {
    /// Each flag read from its bit of `value`.
    pub open spec fn spec_from_mask(value: u32) -> SpellAttr0 {
        SpellAttr0 {
            unk0: has_flag(value, 0x00000001u32),
            req_ammo: has_flag(value, 0x00000002u32),
            on_next_swing: has_flag(value, 0x00000004u32),
            is_replenishment: has_flag(value, 0x00000008u32),
            ability: has_flag(value, 0x00000010u32),
            trade_spell: has_flag(value, 0x00000020u32),
            passive: has_flag(value, 0x00000040u32),
            hidden_clientside: has_flag(value, 0x00000080u32),
            hide_in_combat_log: has_flag(value, 0x00000100u32),
            target_main_hand_item: has_flag(value, 0x00000200u32),
            on_next_swing_2: has_flag(value, 0x00000400u32),
            unk11: has_flag(value, 0x00000800u32),
            daytime_only: has_flag(value, 0x00001000u32),
            night_only: has_flag(value, 0x00002000u32),
            indoors_only: has_flag(value, 0x00004000u32),
            outdoors_only: has_flag(value, 0x00008000u32),
            not_shape_shift: has_flag(value, 0x00010000u32),
            only_in_stealth: has_flag(value, 0x00020000u32),
            dont_affect_sheath_state: has_flag(value, 0x00040000u32),
            level_damage_calculation: has_flag(value, 0x00080000u32),
            stop_attack_target: has_flag(value, 0x00100000u32),
            impossible_dodge_parry_block: has_flag(value, 0x00200000u32),
            cast_track_target: has_flag(value, 0x00400000u32),
            can_cast_when_dead: has_flag(value, 0x00800000u32),
            can_cast_when_mounted: has_flag(value, 0x01000000u32),
            disabled_while_active: has_flag(value, 0x02000000u32),
            negative_1: has_flag(value, 0x04000000u32),
            can_cast_when_sitting: has_flag(value, 0x08000000u32),
            cant_used_in_combat: has_flag(value, 0x10000000u32),
            unaffected_by_invulnerability: has_flag(value, 0x20000000u32),
            heartbeat_resist_check: has_flag(value, 0x40000000u32),
            cant_cancel: has_flag(value, 0x80000000u32),
        }
    }

    /// The word with the bits of the set flags.
    pub open spec fn spec_mask(&self) -> u32 {
        ((if self.unk0 { 0x00000001u32 } else { 0u32 })
            | (if self.req_ammo { 0x00000002u32 } else { 0u32 })
            | (if self.on_next_swing { 0x00000004u32 } else { 0u32 })
            | (if self.is_replenishment { 0x00000008u32 } else { 0u32 })
            | (if self.ability { 0x00000010u32 } else { 0u32 })
            | (if self.trade_spell { 0x00000020u32 } else { 0u32 })
            | (if self.passive { 0x00000040u32 } else { 0u32 })
            | (if self.hidden_clientside { 0x00000080u32 } else { 0u32 })
            | (if self.hide_in_combat_log { 0x00000100u32 } else { 0u32 })
            | (if self.target_main_hand_item { 0x00000200u32 } else { 0u32 })
            | (if self.on_next_swing_2 { 0x00000400u32 } else { 0u32 })
            | (if self.unk11 { 0x00000800u32 } else { 0u32 })
            | (if self.daytime_only { 0x00001000u32 } else { 0u32 })
            | (if self.night_only { 0x00002000u32 } else { 0u32 })
            | (if self.indoors_only { 0x00004000u32 } else { 0u32 })
            | (if self.outdoors_only { 0x00008000u32 } else { 0u32 }))
            | ((if self.not_shape_shift { 0x00010000u32 } else { 0u32 })
            | (if self.only_in_stealth { 0x00020000u32 } else { 0u32 })
            | (if self.dont_affect_sheath_state { 0x00040000u32 } else { 0u32 })
            | (if self.level_damage_calculation { 0x00080000u32 } else { 0u32 })
            | (if self.stop_attack_target { 0x00100000u32 } else { 0u32 })
            | (if self.impossible_dodge_parry_block { 0x00200000u32 } else { 0u32 })
            | (if self.cast_track_target { 0x00400000u32 } else { 0u32 })
            | (if self.can_cast_when_dead { 0x00800000u32 } else { 0u32 })
            | (if self.can_cast_when_mounted { 0x01000000u32 } else { 0u32 })
            | (if self.disabled_while_active { 0x02000000u32 } else { 0u32 })
            | (if self.negative_1 { 0x04000000u32 } else { 0u32 })
            | (if self.can_cast_when_sitting { 0x08000000u32 } else { 0u32 })
            | (if self.cant_used_in_combat { 0x10000000u32 } else { 0u32 })
            | (if self.unaffected_by_invulnerability { 0x20000000u32 } else { 0u32 })
            | (if self.heartbeat_resist_check { 0x40000000u32 } else { 0u32 })
            | (if self.cant_cancel { 0x80000000u32 } else { 0u32 }))
    }

    /// Reads each flag from its bit of `value`.
    pub fn from_mask(value: u32) -> (r: SpellAttr0)
        ensures
            r == SpellAttr0::spec_from_mask(value),
    {
        SpellAttr0 {
            unk0: has_bit_flag(value, 0x00000001u32),
            req_ammo: has_bit_flag(value, 0x00000002u32),
            on_next_swing: has_bit_flag(value, 0x00000004u32),
            is_replenishment: has_bit_flag(value, 0x00000008u32),
            ability: has_bit_flag(value, 0x00000010u32),
            trade_spell: has_bit_flag(value, 0x00000020u32),
            passive: has_bit_flag(value, 0x00000040u32),
            hidden_clientside: has_bit_flag(value, 0x00000080u32),
            hide_in_combat_log: has_bit_flag(value, 0x00000100u32),
            target_main_hand_item: has_bit_flag(value, 0x00000200u32),
            on_next_swing_2: has_bit_flag(value, 0x00000400u32),
            unk11: has_bit_flag(value, 0x00000800u32),
            daytime_only: has_bit_flag(value, 0x00001000u32),
            night_only: has_bit_flag(value, 0x00002000u32),
            indoors_only: has_bit_flag(value, 0x00004000u32),
            outdoors_only: has_bit_flag(value, 0x00008000u32),
            not_shape_shift: has_bit_flag(value, 0x00010000u32),
            only_in_stealth: has_bit_flag(value, 0x00020000u32),
            dont_affect_sheath_state: has_bit_flag(value, 0x00040000u32),
            level_damage_calculation: has_bit_flag(value, 0x00080000u32),
            stop_attack_target: has_bit_flag(value, 0x00100000u32),
            impossible_dodge_parry_block: has_bit_flag(value, 0x00200000u32),
            cast_track_target: has_bit_flag(value, 0x00400000u32),
            can_cast_when_dead: has_bit_flag(value, 0x00800000u32),
            can_cast_when_mounted: has_bit_flag(value, 0x01000000u32),
            disabled_while_active: has_bit_flag(value, 0x02000000u32),
            negative_1: has_bit_flag(value, 0x04000000u32),
            can_cast_when_sitting: has_bit_flag(value, 0x08000000u32),
            cant_used_in_combat: has_bit_flag(value, 0x10000000u32),
            unaffected_by_invulnerability: has_bit_flag(value, 0x20000000u32),
            heartbeat_resist_check: has_bit_flag(value, 0x40000000u32),
            cant_cancel: has_bit_flag(value, 0x80000000u32),
        }
    }

    /// The word with the bits of the set flags.
    pub fn to_mask(&self) -> (r: u32)
        ensures
            r == self.spec_mask(),
    {
        ((if self.unk0 { 0x00000001u32 } else { 0u32 })
            | (if self.req_ammo { 0x00000002u32 } else { 0u32 })
            | (if self.on_next_swing { 0x00000004u32 } else { 0u32 })
            | (if self.is_replenishment { 0x00000008u32 } else { 0u32 })
            | (if self.ability { 0x00000010u32 } else { 0u32 })
            | (if self.trade_spell { 0x00000020u32 } else { 0u32 })
            | (if self.passive { 0x00000040u32 } else { 0u32 })
            | (if self.hidden_clientside { 0x00000080u32 } else { 0u32 })
            | (if self.hide_in_combat_log { 0x00000100u32 } else { 0u32 })
            | (if self.target_main_hand_item { 0x00000200u32 } else { 0u32 })
            | (if self.on_next_swing_2 { 0x00000400u32 } else { 0u32 })
            | (if self.unk11 { 0x00000800u32 } else { 0u32 })
            | (if self.daytime_only { 0x00001000u32 } else { 0u32 })
            | (if self.night_only { 0x00002000u32 } else { 0u32 })
            | (if self.indoors_only { 0x00004000u32 } else { 0u32 })
            | (if self.outdoors_only { 0x00008000u32 } else { 0u32 }))
            | ((if self.not_shape_shift { 0x00010000u32 } else { 0u32 })
            | (if self.only_in_stealth { 0x00020000u32 } else { 0u32 })
            | (if self.dont_affect_sheath_state { 0x00040000u32 } else { 0u32 })
            | (if self.level_damage_calculation { 0x00080000u32 } else { 0u32 })
            | (if self.stop_attack_target { 0x00100000u32 } else { 0u32 })
            | (if self.impossible_dodge_parry_block { 0x00200000u32 } else { 0u32 })
            | (if self.cast_track_target { 0x00400000u32 } else { 0u32 })
            | (if self.can_cast_when_dead { 0x00800000u32 } else { 0u32 })
            | (if self.can_cast_when_mounted { 0x01000000u32 } else { 0u32 })
            | (if self.disabled_while_active { 0x02000000u32 } else { 0u32 })
            | (if self.negative_1 { 0x04000000u32 } else { 0u32 })
            | (if self.can_cast_when_sitting { 0x08000000u32 } else { 0u32 })
            | (if self.cant_used_in_combat { 0x10000000u32 } else { 0u32 })
            | (if self.unaffected_by_invulnerability { 0x20000000u32 } else { 0u32 })
            | (if self.heartbeat_resist_check { 0x40000000u32 } else { 0u32 })
            | (if self.cant_cancel { 0x80000000u32 } else { 0u32 }))
    }
}

/// The flags of attribute word 1 of a spell; field `k` (from zero) is bit `k`.
#[derive(Debug, Clone, Copy)]
pub struct SpellAttr1 {
    pub dismiss_pet: bool,
    pub drain_all_power: bool,
    pub channeled_1: bool,
    pub cant_be_redirected: bool,
    pub unk4: bool,
    pub not_break_stealth: bool,
    pub channeled_2: bool,
    pub cant_be_reflected: bool,
    pub cant_target_in_combat: bool,
    pub melee_combat_start: bool,
    pub no_threat: bool,
    pub unk11: bool,
    pub is_pickpocket: bool,
    pub far_sight: bool,
    pub channel_track_target: bool,
    pub dispel_auras_on_immunity: bool,
    pub unaffected_by_school_immune: bool,
    pub unautocastable_by_pet: bool,
    pub unk18: bool,
    pub cant_target_self: bool,
    pub req_combo_points1: bool,
    pub unk21: bool,
    pub req_combo_points2: bool,
    pub unk23: bool,
    pub is_fishing: bool,
    pub unk25: bool,
    pub unk26: bool,
    pub unk27: bool,
    pub dont_display_in_aura_bar: bool,
    pub channel_display_spell_name: bool,
    pub enable_at_dodge: bool,
    pub unk31: bool,
}

impl SpellAttr1 {
    /// Each flag read from its bit of `value`.
    pub open spec fn spec_from_mask(value: u32) -> SpellAttr1 {
        SpellAttr1 {
            dismiss_pet: has_flag(value, 0x00000001u32),
            drain_all_power: has_flag(value, 0x00000002u32),
            channeled_1: has_flag(value, 0x00000004u32),
            cant_be_redirected: has_flag(value, 0x00000008u32),
            unk4: has_flag(value, 0x00000010u32),
            not_break_stealth: has_flag(value, 0x00000020u32),
            channeled_2: has_flag(value, 0x00000040u32),
            cant_be_reflected: has_flag(value, 0x00000080u32),
            cant_target_in_combat: has_flag(value, 0x00000100u32),
            melee_combat_start: has_flag(value, 0x00000200u32),
            no_threat: has_flag(value, 0x00000400u32),
            unk11: has_flag(value, 0x00000800u32),
            is_pickpocket: has_flag(value, 0x00001000u32),
            far_sight: has_flag(value, 0x00002000u32),
            channel_track_target: has_flag(value, 0x00004000u32),
            dispel_auras_on_immunity: has_flag(value, 0x00008000u32),
            unaffected_by_school_immune: has_flag(value, 0x00010000u32),
            unautocastable_by_pet: has_flag(value, 0x00020000u32),
            unk18: has_flag(value, 0x00040000u32),
            cant_target_self: has_flag(value, 0x00080000u32),
            req_combo_points1: has_flag(value, 0x00100000u32),
            unk21: has_flag(value, 0x00200000u32),
            req_combo_points2: has_flag(value, 0x00400000u32),
            unk23: has_flag(value, 0x00800000u32),
            is_fishing: has_flag(value, 0x01000000u32),
            unk25: has_flag(value, 0x02000000u32),
            unk26: has_flag(value, 0x04000000u32),
            unk27: has_flag(value, 0x08000000u32),
            dont_display_in_aura_bar: has_flag(value, 0x10000000u32),
            channel_display_spell_name: has_flag(value, 0x20000000u32),
            enable_at_dodge: has_flag(value, 0x40000000u32),
            unk31: has_flag(value, 0x80000000u32),
        }
    }

    /// The word with the bits of the set flags.
    pub open spec fn spec_mask(&self) -> u32 {
        ((if self.dismiss_pet { 0x00000001u32 } else { 0u32 })
            | (if self.drain_all_power { 0x00000002u32 } else { 0u32 })
            | (if self.channeled_1 { 0x00000004u32 } else { 0u32 })
            | (if self.cant_be_redirected { 0x00000008u32 } else { 0u32 })
            | (if self.unk4 { 0x00000010u32 } else { 0u32 })
            | (if self.not_break_stealth { 0x00000020u32 } else { 0u32 })
            | (if self.channeled_2 { 0x00000040u32 } else { 0u32 })
            | (if self.cant_be_reflected { 0x00000080u32 } else { 0u32 })
            | (if self.cant_target_in_combat { 0x00000100u32 } else { 0u32 })
            | (if self.melee_combat_start { 0x00000200u32 } else { 0u32 })
            | (if self.no_threat { 0x00000400u32 } else { 0u32 })
            | (if self.unk11 { 0x00000800u32 } else { 0u32 })
            | (if self.is_pickpocket { 0x00001000u32 } else { 0u32 })
            | (if self.far_sight { 0x00002000u32 } else { 0u32 })
            | (if self.channel_track_target { 0x00004000u32 } else { 0u32 })
            | (if self.dispel_auras_on_immunity { 0x00008000u32 } else { 0u32 }))
            | ((if self.unaffected_by_school_immune { 0x00010000u32 } else { 0u32 })
            | (if self.unautocastable_by_pet { 0x00020000u32 } else { 0u32 })
            | (if self.unk18 { 0x00040000u32 } else { 0u32 })
            | (if self.cant_target_self { 0x00080000u32 } else { 0u32 })
            | (if self.req_combo_points1 { 0x00100000u32 } else { 0u32 })
            | (if self.unk21 { 0x00200000u32 } else { 0u32 })
            | (if self.req_combo_points2 { 0x00400000u32 } else { 0u32 })
            | (if self.unk23 { 0x00800000u32 } else { 0u32 })
            | (if self.is_fishing { 0x01000000u32 } else { 0u32 })
            | (if self.unk25 { 0x02000000u32 } else { 0u32 })
            | (if self.unk26 { 0x04000000u32 } else { 0u32 })
            | (if self.unk27 { 0x08000000u32 } else { 0u32 })
            | (if self.dont_display_in_aura_bar { 0x10000000u32 } else { 0u32 })
            | (if self.channel_display_spell_name { 0x20000000u32 } else { 0u32 })
            | (if self.enable_at_dodge { 0x40000000u32 } else { 0u32 })
            | (if self.unk31 { 0x80000000u32 } else { 0u32 }))
    }

    /// Reads each flag from its bit of `value`.
    pub fn from_mask(value: u32) -> (r: SpellAttr1)
        ensures
            r == SpellAttr1::spec_from_mask(value),
    {
        SpellAttr1 {
            dismiss_pet: has_bit_flag(value, 0x00000001u32),
            drain_all_power: has_bit_flag(value, 0x00000002u32),
            channeled_1: has_bit_flag(value, 0x00000004u32),
            cant_be_redirected: has_bit_flag(value, 0x00000008u32),
            unk4: has_bit_flag(value, 0x00000010u32),
            not_break_stealth: has_bit_flag(value, 0x00000020u32),
            channeled_2: has_bit_flag(value, 0x00000040u32),
            cant_be_reflected: has_bit_flag(value, 0x00000080u32),
            cant_target_in_combat: has_bit_flag(value, 0x00000100u32),
            melee_combat_start: has_bit_flag(value, 0x00000200u32),
            no_threat: has_bit_flag(value, 0x00000400u32),
            unk11: has_bit_flag(value, 0x00000800u32),
            is_pickpocket: has_bit_flag(value, 0x00001000u32),
            far_sight: has_bit_flag(value, 0x00002000u32),
            channel_track_target: has_bit_flag(value, 0x00004000u32),
            dispel_auras_on_immunity: has_bit_flag(value, 0x00008000u32),
            unaffected_by_school_immune: has_bit_flag(value, 0x00010000u32),
            unautocastable_by_pet: has_bit_flag(value, 0x00020000u32),
            unk18: has_bit_flag(value, 0x00040000u32),
            cant_target_self: has_bit_flag(value, 0x00080000u32),
            req_combo_points1: has_bit_flag(value, 0x00100000u32),
            unk21: has_bit_flag(value, 0x00200000u32),
            req_combo_points2: has_bit_flag(value, 0x00400000u32),
            unk23: has_bit_flag(value, 0x00800000u32),
            is_fishing: has_bit_flag(value, 0x01000000u32),
            unk25: has_bit_flag(value, 0x02000000u32),
            unk26: has_bit_flag(value, 0x04000000u32),
            unk27: has_bit_flag(value, 0x08000000u32),
            dont_display_in_aura_bar: has_bit_flag(value, 0x10000000u32),
            channel_display_spell_name: has_bit_flag(value, 0x20000000u32),
            enable_at_dodge: has_bit_flag(value, 0x40000000u32),
            unk31: has_bit_flag(value, 0x80000000u32),
        }
    }

    /// The word with the bits of the set flags.
    pub fn to_mask(&self) -> (r: u32)
        ensures
            r == self.spec_mask(),
    {
        ((if self.dismiss_pet { 0x00000001u32 } else { 0u32 })
            | (if self.drain_all_power { 0x00000002u32 } else { 0u32 })
            | (if self.channeled_1 { 0x00000004u32 } else { 0u32 })
            | (if self.cant_be_redirected { 0x00000008u32 } else { 0u32 })
            | (if self.unk4 { 0x00000010u32 } else { 0u32 })
            | (if self.not_break_stealth { 0x00000020u32 } else { 0u32 })
            | (if self.channeled_2 { 0x00000040u32 } else { 0u32 })
            | (if self.cant_be_reflected { 0x00000080u32 } else { 0u32 })
            | (if self.cant_target_in_combat { 0x00000100u32 } else { 0u32 })
            | (if self.melee_combat_start { 0x00000200u32 } else { 0u32 })
            | (if self.no_threat { 0x00000400u32 } else { 0u32 })
            | (if self.unk11 { 0x00000800u32 } else { 0u32 })
            | (if self.is_pickpocket { 0x00001000u32 } else { 0u32 })
            | (if self.far_sight { 0x00002000u32 } else { 0u32 })
            | (if self.channel_track_target { 0x00004000u32 } else { 0u32 })
            | (if self.dispel_auras_on_immunity { 0x00008000u32 } else { 0u32 }))
            | ((if self.unaffected_by_school_immune { 0x00010000u32 } else { 0u32 })
            | (if self.unautocastable_by_pet { 0x00020000u32 } else { 0u32 })
            | (if self.unk18 { 0x00040000u32 } else { 0u32 })
            | (if self.cant_target_self { 0x00080000u32 } else { 0u32 })
            | (if self.req_combo_points1 { 0x00100000u32 } else { 0u32 })
            | (if self.unk21 { 0x00200000u32 } else { 0u32 })
            | (if self.req_combo_points2 { 0x00400000u32 } else { 0u32 })
            | (if self.unk23 { 0x00800000u32 } else { 0u32 })
            | (if self.is_fishing { 0x01000000u32 } else { 0u32 })
            | (if self.unk25 { 0x02000000u32 } else { 0u32 })
            | (if self.unk26 { 0x04000000u32 } else { 0u32 })
            | (if self.unk27 { 0x08000000u32 } else { 0u32 })
            | (if self.dont_display_in_aura_bar { 0x10000000u32 } else { 0u32 })
            | (if self.channel_display_spell_name { 0x20000000u32 } else { 0u32 })
            | (if self.enable_at_dodge { 0x40000000u32 } else { 0u32 })
            | (if self.unk31 { 0x80000000u32 } else { 0u32 }))
    }
}

/// The flags of attribute word 2 of a spell; field `k` (from zero) is bit `k`.
#[derive(Debug, Clone, Copy)]
pub struct SpellAttr2 {
    pub can_target_dead: bool,
    pub unk1: bool,
    pub can_target_not_in_los: bool,
    pub unk3: bool,
    pub display_in_stance_bar: bool,
    pub auto_repeat_flag: bool,
    pub cant_target_tapped: bool,
    pub unk7: bool,
    pub unk8: bool,
    pub unk9: bool,
    pub unk10: bool,
    pub health_funnel: bool,
    pub unk12: bool,
    pub preserve_enchant_in_arena: bool,
    pub unk14: bool,
    pub unk15: bool,
    pub tame_beast: bool,
    pub not_reset_auto_actions: bool,
    pub req_dead_pet: bool,
    pub not_need_shapeshift: bool,
    pub unk20: bool,
    pub damage_reduced_shield: bool,
    pub unk22: bool,
    pub is_arcane_concentration: bool,
    pub unk24: bool,
    pub unk25: bool,
    pub unk26: bool,
    pub unk27: bool,
    pub unk28: bool,
    pub cant_crit: bool,
    pub triggered_can_trigger_proc: bool,
    pub food_buff: bool,
}

impl SpellAttr2 {
    /// Each flag read from its bit of `value`.
    pub open spec fn spec_from_mask(value: u32) -> SpellAttr2 {
        SpellAttr2 {
            can_target_dead: has_flag(value, 0x00000001u32),
            unk1: has_flag(value, 0x00000002u32),
            can_target_not_in_los: has_flag(value, 0x00000004u32),
            unk3: has_flag(value, 0x00000008u32),
            display_in_stance_bar: has_flag(value, 0x00000010u32),
            auto_repeat_flag: has_flag(value, 0x00000020u32),
            cant_target_tapped: has_flag(value, 0x00000040u32),
            unk7: has_flag(value, 0x00000080u32),
            unk8: has_flag(value, 0x00000100u32),
            unk9: has_flag(value, 0x00000200u32),
            unk10: has_flag(value, 0x00000400u32),
            health_funnel: has_flag(value, 0x00000800u32),
            unk12: has_flag(value, 0x00001000u32),
            preserve_enchant_in_arena: has_flag(value, 0x00002000u32),
            unk14: has_flag(value, 0x00004000u32),
            unk15: has_flag(value, 0x00008000u32),
            tame_beast: has_flag(value, 0x00010000u32),
            not_reset_auto_actions: has_flag(value, 0x00020000u32),
            req_dead_pet: has_flag(value, 0x00040000u32),
            not_need_shapeshift: has_flag(value, 0x00080000u32),
            unk20: has_flag(value, 0x00100000u32),
            damage_reduced_shield: has_flag(value, 0x00200000u32),
            unk22: has_flag(value, 0x00400000u32),
            is_arcane_concentration: has_flag(value, 0x00800000u32),
            unk24: has_flag(value, 0x01000000u32),
            unk25: has_flag(value, 0x02000000u32),
            unk26: has_flag(value, 0x04000000u32),
            unk27: has_flag(value, 0x08000000u32),
            unk28: has_flag(value, 0x10000000u32),
            cant_crit: has_flag(value, 0x20000000u32),
            triggered_can_trigger_proc: has_flag(value, 0x40000000u32),
            food_buff: has_flag(value, 0x80000000u32),
        }
    }

    /// The word with the bits of the set flags.
    pub open spec fn spec_mask(&self) -> u32 {
        ((if self.can_target_dead { 0x00000001u32 } else { 0u32 })
            | (if self.unk1 { 0x00000002u32 } else { 0u32 })
            | (if self.can_target_not_in_los { 0x00000004u32 } else { 0u32 })
            | (if self.unk3 { 0x00000008u32 } else { 0u32 })
            | (if self.display_in_stance_bar { 0x00000010u32 } else { 0u32 })
            | (if self.auto_repeat_flag { 0x00000020u32 } else { 0u32 })
            | (if self.cant_target_tapped { 0x00000040u32 } else { 0u32 })
            | (if self.unk7 { 0x00000080u32 } else { 0u32 })
            | (if self.unk8 { 0x00000100u32 } else { 0u32 })
            | (if self.unk9 { 0x00000200u32 } else { 0u32 })
            | (if self.unk10 { 0x00000400u32 } else { 0u32 })
            | (if self.health_funnel { 0x00000800u32 } else { 0u32 })
            | (if self.unk12 { 0x00001000u32 } else { 0u32 })
            | (if self.preserve_enchant_in_arena { 0x00002000u32 } else { 0u32 })
            | (if self.unk14 { 0x00004000u32 } else { 0u32 })
            | (if self.unk15 { 0x00008000u32 } else { 0u32 }))
            | ((if self.tame_beast { 0x00010000u32 } else { 0u32 })
            | (if self.not_reset_auto_actions { 0x00020000u32 } else { 0u32 })
            | (if self.req_dead_pet { 0x00040000u32 } else { 0u32 })
            | (if self.not_need_shapeshift { 0x00080000u32 } else { 0u32 })
            | (if self.unk20 { 0x00100000u32 } else { 0u32 })
            | (if self.damage_reduced_shield { 0x00200000u32 } else { 0u32 })
            | (if self.unk22 { 0x00400000u32 } else { 0u32 })
            | (if self.is_arcane_concentration { 0x00800000u32 } else { 0u32 })
            | (if self.unk24 { 0x01000000u32 } else { 0u32 })
            | (if self.unk25 { 0x02000000u32 } else { 0u32 })
            | (if self.unk26 { 0x04000000u32 } else { 0u32 })
            | (if self.unk27 { 0x08000000u32 } else { 0u32 })
            | (if self.unk28 { 0x10000000u32 } else { 0u32 })
            | (if self.cant_crit { 0x20000000u32 } else { 0u32 })
            | (if self.triggered_can_trigger_proc { 0x40000000u32 } else { 0u32 })
            | (if self.food_buff { 0x80000000u32 } else { 0u32 }))
    }

    /// Reads each flag from its bit of `value`.
    pub fn from_mask(value: u32) -> (r: SpellAttr2)
        ensures
            r == SpellAttr2::spec_from_mask(value),
    {
        SpellAttr2 {
            can_target_dead: has_bit_flag(value, 0x00000001u32),
            unk1: has_bit_flag(value, 0x00000002u32),
            can_target_not_in_los: has_bit_flag(value, 0x00000004u32),
            unk3: has_bit_flag(value, 0x00000008u32),
            display_in_stance_bar: has_bit_flag(value, 0x00000010u32),
            auto_repeat_flag: has_bit_flag(value, 0x00000020u32),
            cant_target_tapped: has_bit_flag(value, 0x00000040u32),
            unk7: has_bit_flag(value, 0x00000080u32),
            unk8: has_bit_flag(value, 0x00000100u32),
            unk9: has_bit_flag(value, 0x00000200u32),
            unk10: has_bit_flag(value, 0x00000400u32),
            health_funnel: has_bit_flag(value, 0x00000800u32),
            unk12: has_bit_flag(value, 0x00001000u32),
            preserve_enchant_in_arena: has_bit_flag(value, 0x00002000u32),
            unk14: has_bit_flag(value, 0x00004000u32),
            unk15: has_bit_flag(value, 0x00008000u32),
            tame_beast: has_bit_flag(value, 0x00010000u32),
            not_reset_auto_actions: has_bit_flag(value, 0x00020000u32),
            req_dead_pet: has_bit_flag(value, 0x00040000u32),
            not_need_shapeshift: has_bit_flag(value, 0x00080000u32),
            unk20: has_bit_flag(value, 0x00100000u32),
            damage_reduced_shield: has_bit_flag(value, 0x00200000u32),
            unk22: has_bit_flag(value, 0x00400000u32),
            is_arcane_concentration: has_bit_flag(value, 0x00800000u32),
            unk24: has_bit_flag(value, 0x01000000u32),
            unk25: has_bit_flag(value, 0x02000000u32),
            unk26: has_bit_flag(value, 0x04000000u32),
            unk27: has_bit_flag(value, 0x08000000u32),
            unk28: has_bit_flag(value, 0x10000000u32),
            cant_crit: has_bit_flag(value, 0x20000000u32),
            triggered_can_trigger_proc: has_bit_flag(value, 0x40000000u32),
            food_buff: has_bit_flag(value, 0x80000000u32),
        }
    }

    /// The word with the bits of the set flags.
    pub fn to_mask(&self) -> (r: u32)
        ensures
            r == self.spec_mask(),
    {
        ((if self.can_target_dead { 0x00000001u32 } else { 0u32 })
            | (if self.unk1 { 0x00000002u32 } else { 0u32 })
            | (if self.can_target_not_in_los { 0x00000004u32 } else { 0u32 })
            | (if self.unk3 { 0x00000008u32 } else { 0u32 })
            | (if self.display_in_stance_bar { 0x00000010u32 } else { 0u32 })
            | (if self.auto_repeat_flag { 0x00000020u32 } else { 0u32 })
            | (if self.cant_target_tapped { 0x00000040u32 } else { 0u32 })
            | (if self.unk7 { 0x00000080u32 } else { 0u32 })
            | (if self.unk8 { 0x00000100u32 } else { 0u32 })
            | (if self.unk9 { 0x00000200u32 } else { 0u32 })
            | (if self.unk10 { 0x00000400u32 } else { 0u32 })
            | (if self.health_funnel { 0x00000800u32 } else { 0u32 })
            | (if self.unk12 { 0x00001000u32 } else { 0u32 })
            | (if self.preserve_enchant_in_arena { 0x00002000u32 } else { 0u32 })
            | (if self.unk14 { 0x00004000u32 } else { 0u32 })
            | (if self.unk15 { 0x00008000u32 } else { 0u32 }))
            | ((if self.tame_beast { 0x00010000u32 } else { 0u32 })
            | (if self.not_reset_auto_actions { 0x00020000u32 } else { 0u32 })
            | (if self.req_dead_pet { 0x00040000u32 } else { 0u32 })
            | (if self.not_need_shapeshift { 0x00080000u32 } else { 0u32 })
            | (if self.unk20 { 0x00100000u32 } else { 0u32 })
            | (if self.damage_reduced_shield { 0x00200000u32 } else { 0u32 })
            | (if self.unk22 { 0x00400000u32 } else { 0u32 })
            | (if self.is_arcane_concentration { 0x00800000u32 } else { 0u32 })
            | (if self.unk24 { 0x01000000u32 } else { 0u32 })
            | (if self.unk25 { 0x02000000u32 } else { 0u32 })
            | (if self.unk26 { 0x04000000u32 } else { 0u32 })
            | (if self.unk27 { 0x08000000u32 } else { 0u32 })
            | (if self.unk28 { 0x10000000u32 } else { 0u32 })
            | (if self.cant_crit { 0x20000000u32 } else { 0u32 })
            | (if self.triggered_can_trigger_proc { 0x40000000u32 } else { 0u32 })
            | (if self.food_buff { 0x80000000u32 } else { 0u32 }))
    }
}

/// The flags of attribute word 3 of a spell; field `k` (from zero) is bit `k`.
#[derive(Debug, Clone, Copy)]
pub struct SpellAttr3 {
    pub unk0: bool,
    pub unk1: bool,
    pub unk2: bool,
    pub blockable_spell: bool,
    pub ignore_resurrection_timer: bool,
    pub unk5: bool,
    pub unk6: bool,
    pub stack_for_diff_casters: bool,
    pub only_target_players: bool,
    pub triggered_can_trigger_proc_2: bool,
    pub main_hand: bool,
    pub battleground: bool,
    pub only_target_ghosts: bool,
    pub dont_display_channel_bar: bool,
    pub is_honorless_target: bool,
    pub unk15: bool,
    pub cant_trigger_proc: bool,
    pub no_initial_aggro: bool,
    pub ignore_hit_result: bool,
    pub disable_proc: bool,
    pub death_persistent: bool,
    pub unk21: bool,
    pub req_wand: bool,
    pub unk23: bool,
    pub req_offhand: bool,
    pub no_pushback: bool,
    pub can_proc_with_triggered: bool,
    pub drain_soul: bool,
    pub unk28: bool,
    pub no_done_bonus: bool,
    pub dont_display_range: bool,
    pub unk31: bool,
}

impl SpellAttr3 {
    /// Each flag read from its bit of `value`.
    pub open spec fn spec_from_mask(value: u32) -> SpellAttr3 {
        SpellAttr3 {
            unk0: has_flag(value, 0x00000001u32),
            unk1: has_flag(value, 0x00000002u32),
            unk2: has_flag(value, 0x00000004u32),
            blockable_spell: has_flag(value, 0x00000008u32),
            ignore_resurrection_timer: has_flag(value, 0x00000010u32),
            unk5: has_flag(value, 0x00000020u32),
            unk6: has_flag(value, 0x00000040u32),
            stack_for_diff_casters: has_flag(value, 0x00000080u32),
            only_target_players: has_flag(value, 0x00000100u32),
            triggered_can_trigger_proc_2: has_flag(value, 0x00000200u32),
            main_hand: has_flag(value, 0x00000400u32),
            battleground: has_flag(value, 0x00000800u32),
            only_target_ghosts: has_flag(value, 0x00001000u32),
            dont_display_channel_bar: has_flag(value, 0x00002000u32),
            is_honorless_target: has_flag(value, 0x00004000u32),
            unk15: has_flag(value, 0x00008000u32),
            cant_trigger_proc: has_flag(value, 0x00010000u32),
            no_initial_aggro: has_flag(value, 0x00020000u32),
            ignore_hit_result: has_flag(value, 0x00040000u32),
            disable_proc: has_flag(value, 0x00080000u32),
            death_persistent: has_flag(value, 0x00100000u32),
            unk21: has_flag(value, 0x00200000u32),
            req_wand: has_flag(value, 0x00400000u32),
            unk23: has_flag(value, 0x00800000u32),
            req_offhand: has_flag(value, 0x01000000u32),
            no_pushback: has_flag(value, 0x02000000u32),
            can_proc_with_triggered: has_flag(value, 0x04000000u32),
            drain_soul: has_flag(value, 0x08000000u32),
            unk28: has_flag(value, 0x10000000u32),
            no_done_bonus: has_flag(value, 0x20000000u32),
            dont_display_range: has_flag(value, 0x40000000u32),
            unk31: has_flag(value, 0x80000000u32),
        }
    }

    /// The word with the bits of the set flags.
    pub open spec fn spec_mask(&self) -> u32 {
        ((if self.unk0 { 0x00000001u32 } else { 0u32 })
            | (if self.unk1 { 0x00000002u32 } else { 0u32 })
            | (if self.unk2 { 0x00000004u32 } else { 0u32 })
            | (if self.blockable_spell { 0x00000008u32 } else { 0u32 })
            | (if self.ignore_resurrection_timer { 0x00000010u32 } else { 0u32 })
            | (if self.unk5 { 0x00000020u32 } else { 0u32 })
            | (if self.unk6 { 0x00000040u32 } else { 0u32 })
            | (if self.stack_for_diff_casters { 0x00000080u32 } else { 0u32 })
            | (if self.only_target_players { 0x00000100u32 } else { 0u32 })
            | (if self.triggered_can_trigger_proc_2 { 0x00000200u32 } else { 0u32 })
            | (if self.main_hand { 0x00000400u32 } else { 0u32 })
            | (if self.battleground { 0x00000800u32 } else { 0u32 })
            | (if self.only_target_ghosts { 0x00001000u32 } else { 0u32 })
            | (if self.dont_display_channel_bar { 0x00002000u32 } else { 0u32 })
            | (if self.is_honorless_target { 0x00004000u32 } else { 0u32 })
            | (if self.unk15 { 0x00008000u32 } else { 0u32 }))
            | ((if self.cant_trigger_proc { 0x00010000u32 } else { 0u32 })
            | (if self.no_initial_aggro { 0x00020000u32 } else { 0u32 })
            | (if self.ignore_hit_result { 0x00040000u32 } else { 0u32 })
            | (if self.disable_proc { 0x00080000u32 } else { 0u32 })
            | (if self.death_persistent { 0x00100000u32 } else { 0u32 })
            | (if self.unk21 { 0x00200000u32 } else { 0u32 })
            | (if self.req_wand { 0x00400000u32 } else { 0u32 })
            | (if self.unk23 { 0x00800000u32 } else { 0u32 })
            | (if self.req_offhand { 0x01000000u32 } else { 0u32 })
            | (if self.no_pushback { 0x02000000u32 } else { 0u32 })
            | (if self.can_proc_with_triggered { 0x04000000u32 } else { 0u32 })
            | (if self.drain_soul { 0x08000000u32 } else { 0u32 })
            | (if self.unk28 { 0x10000000u32 } else { 0u32 })
            | (if self.no_done_bonus { 0x20000000u32 } else { 0u32 })
            | (if self.dont_display_range { 0x40000000u32 } else { 0u32 })
            | (if self.unk31 { 0x80000000u32 } else { 0u32 }))
    }

    /// Reads each flag from its bit of `value`.
    pub fn from_mask(value: u32) -> (r: SpellAttr3)
        ensures
            r == SpellAttr3::spec_from_mask(value),
    {
        SpellAttr3 {
            unk0: has_bit_flag(value, 0x00000001u32),
            unk1: has_bit_flag(value, 0x00000002u32),
            unk2: has_bit_flag(value, 0x00000004u32),
            blockable_spell: has_bit_flag(value, 0x00000008u32),
            ignore_resurrection_timer: has_bit_flag(value, 0x00000010u32),
            unk5: has_bit_flag(value, 0x00000020u32),
            unk6: has_bit_flag(value, 0x00000040u32),
            stack_for_diff_casters: has_bit_flag(value, 0x00000080u32),
            only_target_players: has_bit_flag(value, 0x00000100u32),
            triggered_can_trigger_proc_2: has_bit_flag(value, 0x00000200u32),
            main_hand: has_bit_flag(value, 0x00000400u32),
            battleground: has_bit_flag(value, 0x00000800u32),
            only_target_ghosts: has_bit_flag(value, 0x00001000u32),
            dont_display_channel_bar: has_bit_flag(value, 0x00002000u32),
            is_honorless_target: has_bit_flag(value, 0x00004000u32),
            unk15: has_bit_flag(value, 0x00008000u32),
            cant_trigger_proc: has_bit_flag(value, 0x00010000u32),
            no_initial_aggro: has_bit_flag(value, 0x00020000u32),
            ignore_hit_result: has_bit_flag(value, 0x00040000u32),
            disable_proc: has_bit_flag(value, 0x00080000u32),
            death_persistent: has_bit_flag(value, 0x00100000u32),
            unk21: has_bit_flag(value, 0x00200000u32),
            req_wand: has_bit_flag(value, 0x00400000u32),
            unk23: has_bit_flag(value, 0x00800000u32),
            req_offhand: has_bit_flag(value, 0x01000000u32),
            no_pushback: has_bit_flag(value, 0x02000000u32),
            can_proc_with_triggered: has_bit_flag(value, 0x04000000u32),
            drain_soul: has_bit_flag(value, 0x08000000u32),
            unk28: has_bit_flag(value, 0x10000000u32),
            no_done_bonus: has_bit_flag(value, 0x20000000u32),
            dont_display_range: has_bit_flag(value, 0x40000000u32),
            unk31: has_bit_flag(value, 0x80000000u32),
        }
    }

    /// The word with the bits of the set flags.
    pub fn to_mask(&self) -> (r: u32)
        ensures
            r == self.spec_mask(),
    {
        ((if self.unk0 { 0x00000001u32 } else { 0u32 })
            | (if self.unk1 { 0x00000002u32 } else { 0u32 })
            | (if self.unk2 { 0x00000004u32 } else { 0u32 })
            | (if self.blockable_spell { 0x00000008u32 } else { 0u32 })
            | (if self.ignore_resurrection_timer { 0x00000010u32 } else { 0u32 })
            | (if self.unk5 { 0x00000020u32 } else { 0u32 })
            | (if self.unk6 { 0x00000040u32 } else { 0u32 })
            | (if self.stack_for_diff_casters { 0x00000080u32 } else { 0u32 })
            | (if self.only_target_players { 0x00000100u32 } else { 0u32 })
            | (if self.triggered_can_trigger_proc_2 { 0x00000200u32 } else { 0u32 })
            | (if self.main_hand { 0x00000400u32 } else { 0u32 })
            | (if self.battleground { 0x00000800u32 } else { 0u32 })
            | (if self.only_target_ghosts { 0x00001000u32 } else { 0u32 })
            | (if self.dont_display_channel_bar { 0x00002000u32 } else { 0u32 })
            | (if self.is_honorless_target { 0x00004000u32 } else { 0u32 })
            | (if self.unk15 { 0x00008000u32 } else { 0u32 }))
            | ((if self.cant_trigger_proc { 0x00010000u32 } else { 0u32 })
            | (if self.no_initial_aggro { 0x00020000u32 } else { 0u32 })
            | (if self.ignore_hit_result { 0x00040000u32 } else { 0u32 })
            | (if self.disable_proc { 0x00080000u32 } else { 0u32 })
            | (if self.death_persistent { 0x00100000u32 } else { 0u32 })
            | (if self.unk21 { 0x00200000u32 } else { 0u32 })
            | (if self.req_wand { 0x00400000u32 } else { 0u32 })
            | (if self.unk23 { 0x00800000u32 } else { 0u32 })
            | (if self.req_offhand { 0x01000000u32 } else { 0u32 })
            | (if self.no_pushback { 0x02000000u32 } else { 0u32 })
            | (if self.can_proc_with_triggered { 0x04000000u32 } else { 0u32 })
            | (if self.drain_soul { 0x08000000u32 } else { 0u32 })
            | (if self.unk28 { 0x10000000u32 } else { 0u32 })
            | (if self.no_done_bonus { 0x20000000u32 } else { 0u32 })
            | (if self.dont_display_range { 0x40000000u32 } else { 0u32 })
            | (if self.unk31 { 0x80000000u32 } else { 0u32 }))
    }
}

/// The flags of attribute word 4 of a spell; field `k` (from zero) is bit `k`.
#[derive(Debug, Clone, Copy)]
pub struct SpellAttr4 {
    pub ignore_resistances: bool,
    pub proc_only_on_caster: bool,
    pub fades_while_logged_out: bool,
    pub unk3: bool,
    pub unk4: bool,
    pub unk5: bool,
    pub not_stealable: bool,
    pub can_cast_while_casting: bool,
    pub fixed_damage: bool,
    pub trigger_activate: bool,
    pub spell_vs_extend_cost: bool,
    pub unk11: bool,
    pub unk12: bool,
    pub unk13: bool,
    pub damage_doesnt_break_auras: bool,
    pub unk15: bool,
    pub not_usable_in_arena: bool,
    pub usable_in_arena: bool,
    pub area_target_chain: bool,
    pub unk19: bool,
    pub not_check_selfcast_power: bool,
    pub unk21: bool,
    pub unk22: bool,
    pub cant_trigger_item_spells: bool,
    pub unk24: bool,
    pub is_pet_scaling: bool,
    pub cast_only_in_outland: bool,
    pub unk27: bool,
    pub unk28: bool,
    pub unk29: bool,
    pub unk30: bool,
    pub unk31: bool,
}

impl SpellAttr4 {
    /// Each flag read from its bit of `value`.
    pub open spec fn spec_from_mask(value: u32) -> SpellAttr4 {
        SpellAttr4 {
            ignore_resistances: has_flag(value, 0x00000001u32),
            proc_only_on_caster: has_flag(value, 0x00000002u32),
            fades_while_logged_out: has_flag(value, 0x00000004u32),
            unk3: has_flag(value, 0x00000008u32),
            unk4: has_flag(value, 0x00000010u32),
            unk5: has_flag(value, 0x00000020u32),
            not_stealable: has_flag(value, 0x00000040u32),
            can_cast_while_casting: has_flag(value, 0x00000080u32),
            fixed_damage: has_flag(value, 0x00000100u32),
            trigger_activate: has_flag(value, 0x00000200u32),
            spell_vs_extend_cost: has_flag(value, 0x00000400u32),
            unk11: has_flag(value, 0x00000800u32),
            unk12: has_flag(value, 0x00001000u32),
            unk13: has_flag(value, 0x00002000u32),
            damage_doesnt_break_auras: has_flag(value, 0x00004000u32),
            unk15: has_flag(value, 0x00008000u32),
            not_usable_in_arena: has_flag(value, 0x00010000u32),
            usable_in_arena: has_flag(value, 0x00020000u32),
            area_target_chain: has_flag(value, 0x00040000u32),
            unk19: has_flag(value, 0x00080000u32),
            not_check_selfcast_power: has_flag(value, 0x00100000u32),
            unk21: has_flag(value, 0x00200000u32),
            unk22: has_flag(value, 0x00400000u32),
            cant_trigger_item_spells: has_flag(value, 0x00800000u32),
            unk24: has_flag(value, 0x01000000u32),
            is_pet_scaling: has_flag(value, 0x02000000u32),
            cast_only_in_outland: has_flag(value, 0x04000000u32),
            unk27: has_flag(value, 0x08000000u32),
            unk28: has_flag(value, 0x10000000u32),
            unk29: has_flag(value, 0x20000000u32),
            unk30: has_flag(value, 0x40000000u32),
            unk31: has_flag(value, 0x80000000u32),
        }
    }

    /// The word with the bits of the set flags.
    pub open spec fn spec_mask(&self) -> u32 {
        ((if self.ignore_resistances { 0x00000001u32 } else { 0u32 })
            | (if self.proc_only_on_caster { 0x00000002u32 } else { 0u32 })
            | (if self.fades_while_logged_out { 0x00000004u32 } else { 0u32 })
            | (if self.unk3 { 0x00000008u32 } else { 0u32 })
            | (if self.unk4 { 0x00000010u32 } else { 0u32 })
            | (if self.unk5 { 0x00000020u32 } else { 0u32 })
            | (if self.not_stealable { 0x00000040u32 } else { 0u32 })
            | (if self.can_cast_while_casting { 0x00000080u32 } else { 0u32 })
            | (if self.fixed_damage { 0x00000100u32 } else { 0u32 })
            | (if self.trigger_activate { 0x00000200u32 } else { 0u32 })
            | (if self.spell_vs_extend_cost { 0x00000400u32 } else { 0u32 })
            | (if self.unk11 { 0x00000800u32 } else { 0u32 })
            | (if self.unk12 { 0x00001000u32 } else { 0u32 })
            | (if self.unk13 { 0x00002000u32 } else { 0u32 })
            | (if self.damage_doesnt_break_auras { 0x00004000u32 } else { 0u32 })
            | (if self.unk15 { 0x00008000u32 } else { 0u32 }))
            | ((if self.not_usable_in_arena { 0x00010000u32 } else { 0u32 })
            | (if self.usable_in_arena { 0x00020000u32 } else { 0u32 })
            | (if self.area_target_chain { 0x00040000u32 } else { 0u32 })
            | (if self.unk19 { 0x00080000u32 } else { 0u32 })
            | (if self.not_check_selfcast_power { 0x00100000u32 } else { 0u32 })
            | (if self.unk21 { 0x00200000u32 } else { 0u32 })
            | (if self.unk22 { 0x00400000u32 } else { 0u32 })
            | (if self.cant_trigger_item_spells { 0x00800000u32 } else { 0u32 })
            | (if self.unk24 { 0x01000000u32 } else { 0u32 })
            | (if self.is_pet_scaling { 0x02000000u32 } else { 0u32 })
            | (if self.cast_only_in_outland { 0x04000000u32 } else { 0u32 })
            | (if self.unk27 { 0x08000000u32 } else { 0u32 })
            | (if self.unk28 { 0x10000000u32 } else { 0u32 })
            | (if self.unk29 { 0x20000000u32 } else { 0u32 })
            | (if self.unk30 { 0x40000000u32 } else { 0u32 })
            | (if self.unk31 { 0x80000000u32 } else { 0u32 }))
    }

    /// Reads each flag from its bit of `value`.
    pub fn from_mask(value: u32) -> (r: SpellAttr4)
        ensures
            r == SpellAttr4::spec_from_mask(value),
    {
        SpellAttr4 {
            ignore_resistances: has_bit_flag(value, 0x00000001u32),
            proc_only_on_caster: has_bit_flag(value, 0x00000002u32),
            fades_while_logged_out: has_bit_flag(value, 0x00000004u32),
            unk3: has_bit_flag(value, 0x00000008u32),
            unk4: has_bit_flag(value, 0x00000010u32),
            unk5: has_bit_flag(value, 0x00000020u32),
            not_stealable: has_bit_flag(value, 0x00000040u32),
            can_cast_while_casting: has_bit_flag(value, 0x00000080u32),
            fixed_damage: has_bit_flag(value, 0x00000100u32),
            trigger_activate: has_bit_flag(value, 0x00000200u32),
            spell_vs_extend_cost: has_bit_flag(value, 0x00000400u32),
            unk11: has_bit_flag(value, 0x00000800u32),
            unk12: has_bit_flag(value, 0x00001000u32),
            unk13: has_bit_flag(value, 0x00002000u32),
            damage_doesnt_break_auras: has_bit_flag(value, 0x00004000u32),
            unk15: has_bit_flag(value, 0x00008000u32),
            not_usable_in_arena: has_bit_flag(value, 0x00010000u32),
            usable_in_arena: has_bit_flag(value, 0x00020000u32),
            area_target_chain: has_bit_flag(value, 0x00040000u32),
            unk19: has_bit_flag(value, 0x00080000u32),
            not_check_selfcast_power: has_bit_flag(value, 0x00100000u32),
            unk21: has_bit_flag(value, 0x00200000u32),
            unk22: has_bit_flag(value, 0x00400000u32),
            cant_trigger_item_spells: has_bit_flag(value, 0x00800000u32),
            unk24: has_bit_flag(value, 0x01000000u32),
            is_pet_scaling: has_bit_flag(value, 0x02000000u32),
            cast_only_in_outland: has_bit_flag(value, 0x04000000u32),
            unk27: has_bit_flag(value, 0x08000000u32),
            unk28: has_bit_flag(value, 0x10000000u32),
            unk29: has_bit_flag(value, 0x20000000u32),
            unk30: has_bit_flag(value, 0x40000000u32),
            unk31: has_bit_flag(value, 0x80000000u32),
        }
    }

    /// The word with the bits of the set flags.
    pub fn to_mask(&self) -> (r: u32)
        ensures
            r == self.spec_mask(),
    {
        ((if self.ignore_resistances { 0x00000001u32 } else { 0u32 })
            | (if self.proc_only_on_caster { 0x00000002u32 } else { 0u32 })
            | (if self.fades_while_logged_out { 0x00000004u32 } else { 0u32 })
            | (if self.unk3 { 0x00000008u32 } else { 0u32 })
            | (if self.unk4 { 0x00000010u32 } else { 0u32 })
            | (if self.unk5 { 0x00000020u32 } else { 0u32 })
            | (if self.not_stealable { 0x00000040u32 } else { 0u32 })
            | (if self.can_cast_while_casting { 0x00000080u32 } else { 0u32 })
            | (if self.fixed_damage { 0x00000100u32 } else { 0u32 })
            | (if self.trigger_activate { 0x00000200u32 } else { 0u32 })
            | (if self.spell_vs_extend_cost { 0x00000400u32 } else { 0u32 })
            | (if self.unk11 { 0x00000800u32 } else { 0u32 })
            | (if self.unk12 { 0x00001000u32 } else { 0u32 })
            | (if self.unk13 { 0x00002000u32 } else { 0u32 })
            | (if self.damage_doesnt_break_auras { 0x00004000u32 } else { 0u32 })
            | (if self.unk15 { 0x00008000u32 } else { 0u32 }))
            | ((if self.not_usable_in_arena { 0x00010000u32 } else { 0u32 })
            | (if self.usable_in_arena { 0x00020000u32 } else { 0u32 })
            | (if self.area_target_chain { 0x00040000u32 } else { 0u32 })
            | (if self.unk19 { 0x00080000u32 } else { 0u32 })
            | (if self.not_check_selfcast_power { 0x00100000u32 } else { 0u32 })
            | (if self.unk21 { 0x00200000u32 } else { 0u32 })
            | (if self.unk22 { 0x00400000u32 } else { 0u32 })
            | (if self.cant_trigger_item_spells { 0x00800000u32 } else { 0u32 })
            | (if self.unk24 { 0x01000000u32 } else { 0u32 })
            | (if self.is_pet_scaling { 0x02000000u32 } else { 0u32 })
            | (if self.cast_only_in_outland { 0x04000000u32 } else { 0u32 })
            | (if self.unk27 { 0x08000000u32 } else { 0u32 })
            | (if self.unk28 { 0x10000000u32 } else { 0u32 })
            | (if self.unk29 { 0x20000000u32 } else { 0u32 })
            | (if self.unk30 { 0x40000000u32 } else { 0u32 })
            | (if self.unk31 { 0x80000000u32 } else { 0u32 }))
    }
}

/// The flags of attribute word 5 of a spell; field `k` (from zero) is bit `k`.
#[derive(Debug, Clone, Copy)]
pub struct SpellAttr5 {
    pub no_reagent_while_prep: bool,
    pub remove_on_arena_enter: bool,
    pub usable_while_stunned: bool,
    pub unk4: bool,
    pub single_target_spell: bool,
    pub unk6: bool,
    pub unk7: bool,
    pub unk8: bool,
    pub start_periodic_at_apply: bool,
    pub hide_duration: bool,
    pub allow_target_of_target_as_target: bool,
    pub unk12: bool,
    pub haste_affect_duration: bool,
    pub unk14: bool,
    pub unk15: bool,
    pub special_item_class_check: bool,
    pub usable_while_feared: bool,
    pub usable_while_confused: bool,
    pub dont_turn_during_cast: bool,
    pub unk20: bool,
    pub unk21: bool,
    pub unk22: bool,
    pub unk23: bool,
    pub unk24: bool,
    pub unk25: bool,
    pub skip_checkcast_los_check: bool,
    pub dont_show_aura_if_self_cast: bool,
    pub dont_show_aura_if_not_self_cast: bool,
    pub unk29: bool,
    pub unk30: bool,
    pub unk31: bool,
    pub can_channel_when_moving: bool,
}

impl SpellAttr5 {
    /// Each flag read from its bit of `value`.
    pub open spec fn spec_from_mask(value: u32) -> SpellAttr5 {
        SpellAttr5 {
            no_reagent_while_prep: has_flag(value, 0x00000001u32),
            remove_on_arena_enter: has_flag(value, 0x00000002u32),
            usable_while_stunned: has_flag(value, 0x00000004u32),
            unk4: has_flag(value, 0x00000008u32),
            single_target_spell: has_flag(value, 0x00000010u32),
            unk6: has_flag(value, 0x00000020u32),
            unk7: has_flag(value, 0x00000040u32),
            unk8: has_flag(value, 0x00000080u32),
            start_periodic_at_apply: has_flag(value, 0x00000100u32),
            hide_duration: has_flag(value, 0x00000200u32),
            allow_target_of_target_as_target: has_flag(value, 0x00000400u32),
            unk12: has_flag(value, 0x00000800u32),
            haste_affect_duration: has_flag(value, 0x00001000u32),
            unk14: has_flag(value, 0x00002000u32),
            unk15: has_flag(value, 0x00004000u32),
            special_item_class_check: has_flag(value, 0x00008000u32),
            usable_while_feared: has_flag(value, 0x00010000u32),
            usable_while_confused: has_flag(value, 0x00020000u32),
            dont_turn_during_cast: has_flag(value, 0x00040000u32),
            unk20: has_flag(value, 0x00080000u32),
            unk21: has_flag(value, 0x00100000u32),
            unk22: has_flag(value, 0x00200000u32),
            unk23: has_flag(value, 0x00400000u32),
            unk24: has_flag(value, 0x00800000u32),
            unk25: has_flag(value, 0x01000000u32),
            skip_checkcast_los_check: has_flag(value, 0x02000000u32),
            dont_show_aura_if_self_cast: has_flag(value, 0x04000000u32),
            dont_show_aura_if_not_self_cast: has_flag(value, 0x08000000u32),
            unk29: has_flag(value, 0x10000000u32),
            unk30: has_flag(value, 0x20000000u32),
            unk31: has_flag(value, 0x40000000u32),
            can_channel_when_moving: has_flag(value, 0x80000000u32),
        }
    }

    /// The word with the bits of the set flags.
    pub open spec fn spec_mask(&self) -> u32 {
        ((if self.no_reagent_while_prep { 0x00000001u32 } else { 0u32 })
            | (if self.remove_on_arena_enter { 0x00000002u32 } else { 0u32 })
            | (if self.usable_while_stunned { 0x00000004u32 } else { 0u32 })
            | (if self.unk4 { 0x00000008u32 } else { 0u32 })
            | (if self.single_target_spell { 0x00000010u32 } else { 0u32 })
            | (if self.unk6 { 0x00000020u32 } else { 0u32 })
            | (if self.unk7 { 0x00000040u32 } else { 0u32 })
            | (if self.unk8 { 0x00000080u32 } else { 0u32 })
            | (if self.start_periodic_at_apply { 0x00000100u32 } else { 0u32 })
            | (if self.hide_duration { 0x00000200u32 } else { 0u32 })
            | (if self.allow_target_of_target_as_target { 0x00000400u32 } else { 0u32 })
            | (if self.unk12 { 0x00000800u32 } else { 0u32 })
            | (if self.haste_affect_duration { 0x00001000u32 } else { 0u32 })
            | (if self.unk14 { 0x00002000u32 } else { 0u32 })
            | (if self.unk15 { 0x00004000u32 } else { 0u32 })
            | (if self.special_item_class_check { 0x00008000u32 } else { 0u32 }))
            | ((if self.usable_while_feared { 0x00010000u32 } else { 0u32 })
            | (if self.usable_while_confused { 0x00020000u32 } else { 0u32 })
            | (if self.dont_turn_during_cast { 0x00040000u32 } else { 0u32 })
            | (if self.unk20 { 0x00080000u32 } else { 0u32 })
            | (if self.unk21 { 0x00100000u32 } else { 0u32 })
            | (if self.unk22 { 0x00200000u32 } else { 0u32 })
            | (if self.unk23 { 0x00400000u32 } else { 0u32 })
            | (if self.unk24 { 0x00800000u32 } else { 0u32 })
            | (if self.unk25 { 0x01000000u32 } else { 0u32 })
            | (if self.skip_checkcast_los_check { 0x02000000u32 } else { 0u32 })
            | (if self.dont_show_aura_if_self_cast { 0x04000000u32 } else { 0u32 })
            | (if self.dont_show_aura_if_not_self_cast { 0x08000000u32 } else { 0u32 })
            | (if self.unk29 { 0x10000000u32 } else { 0u32 })
            | (if self.unk30 { 0x20000000u32 } else { 0u32 })
            | (if self.unk31 { 0x40000000u32 } else { 0u32 })
            | (if self.can_channel_when_moving { 0x80000000u32 } else { 0u32 }))
    }

    /// Reads each flag from its bit of `value`.
    pub fn from_mask(value: u32) -> (r: SpellAttr5)
        ensures
            r == SpellAttr5::spec_from_mask(value),
    {
        SpellAttr5 {
            no_reagent_while_prep: has_bit_flag(value, 0x00000001u32),
            remove_on_arena_enter: has_bit_flag(value, 0x00000002u32),
            usable_while_stunned: has_bit_flag(value, 0x00000004u32),
            unk4: has_bit_flag(value, 0x00000008u32),
            single_target_spell: has_bit_flag(value, 0x00000010u32),
            unk6: has_bit_flag(value, 0x00000020u32),
            unk7: has_bit_flag(value, 0x00000040u32),
            unk8: has_bit_flag(value, 0x00000080u32),
            start_periodic_at_apply: has_bit_flag(value, 0x00000100u32),
            hide_duration: has_bit_flag(value, 0x00000200u32),
            allow_target_of_target_as_target: has_bit_flag(value, 0x00000400u32),
            unk12: has_bit_flag(value, 0x00000800u32),
            haste_affect_duration: has_bit_flag(value, 0x00001000u32),
            unk14: has_bit_flag(value, 0x00002000u32),
            unk15: has_bit_flag(value, 0x00004000u32),
            special_item_class_check: has_bit_flag(value, 0x00008000u32),
            usable_while_feared: has_bit_flag(value, 0x00010000u32),
            usable_while_confused: has_bit_flag(value, 0x00020000u32),
            dont_turn_during_cast: has_bit_flag(value, 0x00040000u32),
            unk20: has_bit_flag(value, 0x00080000u32),
            unk21: has_bit_flag(value, 0x00100000u32),
            unk22: has_bit_flag(value, 0x00200000u32),
            unk23: has_bit_flag(value, 0x00400000u32),
            unk24: has_bit_flag(value, 0x00800000u32),
            unk25: has_bit_flag(value, 0x01000000u32),
            skip_checkcast_los_check: has_bit_flag(value, 0x02000000u32),
            dont_show_aura_if_self_cast: has_bit_flag(value, 0x04000000u32),
            dont_show_aura_if_not_self_cast: has_bit_flag(value, 0x08000000u32),
            unk29: has_bit_flag(value, 0x10000000u32),
            unk30: has_bit_flag(value, 0x20000000u32),
            unk31: has_bit_flag(value, 0x40000000u32),
            can_channel_when_moving: has_bit_flag(value, 0x80000000u32),
        }
    }

    /// The word with the bits of the set flags.
    pub fn to_mask(&self) -> (r: u32)
        ensures
            r == self.spec_mask(),
    {
        ((if self.no_reagent_while_prep { 0x00000001u32 } else { 0u32 })
            | (if self.remove_on_arena_enter { 0x00000002u32 } else { 0u32 })
            | (if self.usable_while_stunned { 0x00000004u32 } else { 0u32 })
            | (if self.unk4 { 0x00000008u32 } else { 0u32 })
            | (if self.single_target_spell { 0x00000010u32 } else { 0u32 })
            | (if self.unk6 { 0x00000020u32 } else { 0u32 })
            | (if self.unk7 { 0x00000040u32 } else { 0u32 })
            | (if self.unk8 { 0x00000080u32 } else { 0u32 })
            | (if self.start_periodic_at_apply { 0x00000100u32 } else { 0u32 })
            | (if self.hide_duration { 0x00000200u32 } else { 0u32 })
            | (if self.allow_target_of_target_as_target { 0x00000400u32 } else { 0u32 })
            | (if self.unk12 { 0x00000800u32 } else { 0u32 })
            | (if self.haste_affect_duration { 0x00001000u32 } else { 0u32 })
            | (if self.unk14 { 0x00002000u32 } else { 0u32 })
            | (if self.unk15 { 0x00004000u32 } else { 0u32 })
            | (if self.special_item_class_check { 0x00008000u32 } else { 0u32 }))
            | ((if self.usable_while_feared { 0x00010000u32 } else { 0u32 })
            | (if self.usable_while_confused { 0x00020000u32 } else { 0u32 })
            | (if self.dont_turn_during_cast { 0x00040000u32 } else { 0u32 })
            | (if self.unk20 { 0x00080000u32 } else { 0u32 })
            | (if self.unk21 { 0x00100000u32 } else { 0u32 })
            | (if self.unk22 { 0x00200000u32 } else { 0u32 })
            | (if self.unk23 { 0x00400000u32 } else { 0u32 })
            | (if self.unk24 { 0x00800000u32 } else { 0u32 })
            | (if self.unk25 { 0x01000000u32 } else { 0u32 })
            | (if self.skip_checkcast_los_check { 0x02000000u32 } else { 0u32 })
            | (if self.dont_show_aura_if_self_cast { 0x04000000u32 } else { 0u32 })
            | (if self.dont_show_aura_if_not_self_cast { 0x08000000u32 } else { 0u32 })
            | (if self.unk29 { 0x10000000u32 } else { 0u32 })
            | (if self.unk30 { 0x20000000u32 } else { 0u32 })
            | (if self.unk31 { 0x40000000u32 } else { 0u32 })
            | (if self.can_channel_when_moving { 0x80000000u32 } else { 0u32 }))
    }
}

/// The flags of attribute word 6 of a spell; field `k` (from zero) is bit `k`.
#[derive(Debug, Clone, Copy)]
pub struct SpellAttr6 {
    pub dont_display_cooldown: bool,
    pub only_in_arena: bool,
    pub ignore_caster_auras: bool,
    pub assist_ignore_immune_flag: bool,
    pub unk4: bool,
    pub dont_consume_charges: bool,
    pub use_spell_cast_event: bool,
    pub unk7: bool,
    pub cant_target_crowd_controlled: bool,
    pub unk9: bool,
    pub can_target_possessed_friends: bool,
    pub not_in_raid_instance: bool,
    pub castable_while_on_vehicle: bool,
    pub can_target_invisible: bool,
    pub unk14: bool,
    pub unk15: bool,
    pub unk16: bool,
    pub unk17: bool,
    pub cast_by_charmer: bool,
    pub unk19: bool,
    pub only_visible_to_caster: bool,
    pub client_ui_target_effects: bool,
    pub unk22: bool,
    pub unk23: bool,
    pub can_target_untargetable: bool,
    pub unk25: bool,
    pub unk26: bool,
    pub limit_pct_healing_mods: bool,
    pub unk28: bool,
    pub limit_pct_damage_mods: bool,
    pub unk30: bool,
    pub ignore_category_cooldown_mods: bool,
}

impl SpellAttr6 {
    /// Each flag read from its bit of `value`.
    pub open spec fn spec_from_mask(value: u32) -> SpellAttr6 {
        SpellAttr6 {
            dont_display_cooldown: has_flag(value, 0x00000001u32),
            only_in_arena: has_flag(value, 0x00000002u32),
            ignore_caster_auras: has_flag(value, 0x00000004u32),
            assist_ignore_immune_flag: has_flag(value, 0x00000008u32),
            unk4: has_flag(value, 0x00000010u32),
            dont_consume_charges: has_flag(value, 0x00000020u32),
            use_spell_cast_event: has_flag(value, 0x00000040u32),
            unk7: has_flag(value, 0x00000080u32),
            cant_target_crowd_controlled: has_flag(value, 0x00000100u32),
            unk9: has_flag(value, 0x00000200u32),
            can_target_possessed_friends: has_flag(value, 0x00000400u32),
            not_in_raid_instance: has_flag(value, 0x00000800u32),
            castable_while_on_vehicle: has_flag(value, 0x00001000u32),
            can_target_invisible: has_flag(value, 0x00002000u32),
            unk14: has_flag(value, 0x00004000u32),
            unk15: has_flag(value, 0x00008000u32),
            unk16: has_flag(value, 0x00010000u32),
            unk17: has_flag(value, 0x00020000u32),
            cast_by_charmer: has_flag(value, 0x00040000u32),
            unk19: has_flag(value, 0x00080000u32),
            only_visible_to_caster: has_flag(value, 0x00100000u32),
            client_ui_target_effects: has_flag(value, 0x00200000u32),
            unk22: has_flag(value, 0x00400000u32),
            unk23: has_flag(value, 0x00800000u32),
            can_target_untargetable: has_flag(value, 0x01000000u32),
            unk25: has_flag(value, 0x02000000u32),
            unk26: has_flag(value, 0x04000000u32),
            limit_pct_healing_mods: has_flag(value, 0x08000000u32),
            unk28: has_flag(value, 0x10000000u32),
            limit_pct_damage_mods: has_flag(value, 0x20000000u32),
            unk30: has_flag(value, 0x40000000u32),
            ignore_category_cooldown_mods: has_flag(value, 0x80000000u32),
        }
    }

    /// The word with the bits of the set flags.
    pub open spec fn spec_mask(&self) -> u32 {
        ((if self.dont_display_cooldown { 0x00000001u32 } else { 0u32 })
            | (if self.only_in_arena { 0x00000002u32 } else { 0u32 })
            | (if self.ignore_caster_auras { 0x00000004u32 } else { 0u32 })
            | (if self.assist_ignore_immune_flag { 0x00000008u32 } else { 0u32 })
            | (if self.unk4 { 0x00000010u32 } else { 0u32 })
            | (if self.dont_consume_charges { 0x00000020u32 } else { 0u32 })
            | (if self.use_spell_cast_event { 0x00000040u32 } else { 0u32 })
            | (if self.unk7 { 0x00000080u32 } else { 0u32 })
            | (if self.cant_target_crowd_controlled { 0x00000100u32 } else { 0u32 })
            | (if self.unk9 { 0x00000200u32 } else { 0u32 })
            | (if self.can_target_possessed_friends { 0x00000400u32 } else { 0u32 })
            | (if self.not_in_raid_instance { 0x00000800u32 } else { 0u32 })
            | (if self.castable_while_on_vehicle { 0x00001000u32 } else { 0u32 })
            | (if self.can_target_invisible { 0x00002000u32 } else { 0u32 })
            | (if self.unk14 { 0x00004000u32 } else { 0u32 })
            | (if self.unk15 { 0x00008000u32 } else { 0u32 }))
            | ((if self.unk16 { 0x00010000u32 } else { 0u32 })
            | (if self.unk17 { 0x00020000u32 } else { 0u32 })
            | (if self.cast_by_charmer { 0x00040000u32 } else { 0u32 })
            | (if self.unk19 { 0x00080000u32 } else { 0u32 })
            | (if self.only_visible_to_caster { 0x00100000u32 } else { 0u32 })
            | (if self.client_ui_target_effects { 0x00200000u32 } else { 0u32 })
            | (if self.unk22 { 0x00400000u32 } else { 0u32 })
            | (if self.unk23 { 0x00800000u32 } else { 0u32 })
            | (if self.can_target_untargetable { 0x01000000u32 } else { 0u32 })
            | (if self.unk25 { 0x02000000u32 } else { 0u32 })
            | (if self.unk26 { 0x04000000u32 } else { 0u32 })
            | (if self.limit_pct_healing_mods { 0x08000000u32 } else { 0u32 })
            | (if self.unk28 { 0x10000000u32 } else { 0u32 })
            | (if self.limit_pct_damage_mods { 0x20000000u32 } else { 0u32 })
            | (if self.unk30 { 0x40000000u32 } else { 0u32 })
            | (if self.ignore_category_cooldown_mods { 0x80000000u32 } else { 0u32 }))
    }

    /// Reads each flag from its bit of `value`.
    pub fn from_mask(value: u32) -> (r: SpellAttr6)
        ensures
            r == SpellAttr6::spec_from_mask(value),
    {
        SpellAttr6 {
            dont_display_cooldown: has_bit_flag(value, 0x00000001u32),
            only_in_arena: has_bit_flag(value, 0x00000002u32),
            ignore_caster_auras: has_bit_flag(value, 0x00000004u32),
            assist_ignore_immune_flag: has_bit_flag(value, 0x00000008u32),
            unk4: has_bit_flag(value, 0x00000010u32),
            dont_consume_charges: has_bit_flag(value, 0x00000020u32),
            use_spell_cast_event: has_bit_flag(value, 0x00000040u32),
            unk7: has_bit_flag(value, 0x00000080u32),
            cant_target_crowd_controlled: has_bit_flag(value, 0x00000100u32),
            unk9: has_bit_flag(value, 0x00000200u32),
            can_target_possessed_friends: has_bit_flag(value, 0x00000400u32),
            not_in_raid_instance: has_bit_flag(value, 0x00000800u32),
            castable_while_on_vehicle: has_bit_flag(value, 0x00001000u32),
            can_target_invisible: has_bit_flag(value, 0x00002000u32),
            unk14: has_bit_flag(value, 0x00004000u32),
            unk15: has_bit_flag(value, 0x00008000u32),
            unk16: has_bit_flag(value, 0x00010000u32),
            unk17: has_bit_flag(value, 0x00020000u32),
            cast_by_charmer: has_bit_flag(value, 0x00040000u32),
            unk19: has_bit_flag(value, 0x00080000u32),
            only_visible_to_caster: has_bit_flag(value, 0x00100000u32),
            client_ui_target_effects: has_bit_flag(value, 0x00200000u32),
            unk22: has_bit_flag(value, 0x00400000u32),
            unk23: has_bit_flag(value, 0x00800000u32),
            can_target_untargetable: has_bit_flag(value, 0x01000000u32),
            unk25: has_bit_flag(value, 0x02000000u32),
            unk26: has_bit_flag(value, 0x04000000u32),
            limit_pct_healing_mods: has_bit_flag(value, 0x08000000u32),
            unk28: has_bit_flag(value, 0x10000000u32),
            limit_pct_damage_mods: has_bit_flag(value, 0x20000000u32),
            unk30: has_bit_flag(value, 0x40000000u32),
            ignore_category_cooldown_mods: has_bit_flag(value, 0x80000000u32),
        }
    }

    /// The word with the bits of the set flags.
    pub fn to_mask(&self) -> (r: u32)
        ensures
            r == self.spec_mask(),
    {
        ((if self.dont_display_cooldown { 0x00000001u32 } else { 0u32 })
            | (if self.only_in_arena { 0x00000002u32 } else { 0u32 })
            | (if self.ignore_caster_auras { 0x00000004u32 } else { 0u32 })
            | (if self.assist_ignore_immune_flag { 0x00000008u32 } else { 0u32 })
            | (if self.unk4 { 0x00000010u32 } else { 0u32 })
            | (if self.dont_consume_charges { 0x00000020u32 } else { 0u32 })
            | (if self.use_spell_cast_event { 0x00000040u32 } else { 0u32 })
            | (if self.unk7 { 0x00000080u32 } else { 0u32 })
            | (if self.cant_target_crowd_controlled { 0x00000100u32 } else { 0u32 })
            | (if self.unk9 { 0x00000200u32 } else { 0u32 })
            | (if self.can_target_possessed_friends { 0x00000400u32 } else { 0u32 })
            | (if self.not_in_raid_instance { 0x00000800u32 } else { 0u32 })
            | (if self.castable_while_on_vehicle { 0x00001000u32 } else { 0u32 })
            | (if self.can_target_invisible { 0x00002000u32 } else { 0u32 })
            | (if self.unk14 { 0x00004000u32 } else { 0u32 })
            | (if self.unk15 { 0x00008000u32 } else { 0u32 }))
            | ((if self.unk16 { 0x00010000u32 } else { 0u32 })
            | (if self.unk17 { 0x00020000u32 } else { 0u32 })
            | (if self.cast_by_charmer { 0x00040000u32 } else { 0u32 })
            | (if self.unk19 { 0x00080000u32 } else { 0u32 })
            | (if self.only_visible_to_caster { 0x00100000u32 } else { 0u32 })
            | (if self.client_ui_target_effects { 0x00200000u32 } else { 0u32 })
            | (if self.unk22 { 0x00400000u32 } else { 0u32 })
            | (if self.unk23 { 0x00800000u32 } else { 0u32 })
            | (if self.can_target_untargetable { 0x01000000u32 } else { 0u32 })
            | (if self.unk25 { 0x02000000u32 } else { 0u32 })
            | (if self.unk26 { 0x04000000u32 } else { 0u32 })
            | (if self.limit_pct_healing_mods { 0x08000000u32 } else { 0u32 })
            | (if self.unk28 { 0x10000000u32 } else { 0u32 })
            | (if self.limit_pct_damage_mods { 0x20000000u32 } else { 0u32 })
            | (if self.unk30 { 0x40000000u32 } else { 0u32 })
            | (if self.ignore_category_cooldown_mods { 0x80000000u32 } else { 0u32 }))
    }
}

/// The flags of attribute word 7 of a spell; field `k` (from zero) is bit `k`.
#[derive(Debug, Clone, Copy)]
pub struct SpellAttr7 {
    pub unk0: bool,
    pub ignore_duration_mods: bool,
    pub reactivate_at_resurrect: bool,
    pub is_cheat_spell: bool,
    pub unk4: bool,
    pub summon_player_totem: bool,
    pub no_pushback_on_damage: bool,
    pub unk7: bool,
    pub horde_only: bool,
    pub alliance_only: bool,
    pub dispel_charges: bool,
    pub interrupt_only_nonplayer: bool,
    pub unk12: bool,
    pub unk13: bool,
    pub unk14: bool,
    pub unk15: bool,
    pub can_restore_secondary_power: bool,
    pub unk17: bool,
    pub has_charge_effect: bool,
    pub zone_teleport: bool,
    pub unk20: bool,
    pub unk21: bool,
    pub unk22: bool,
    pub unk23: bool,
    pub unk24: bool,
    pub unk25: bool,
    pub unk26: bool,
    pub unk27: bool,
    pub consolidated_raid_buff: bool,
    pub unk29: bool,
    pub unk30: bool,
    pub client_indicator: bool,
}

impl SpellAttr7 {
    /// Each flag read from its bit of `value`.
    pub open spec fn spec_from_mask(value: u32) -> SpellAttr7 {
        SpellAttr7 {
            unk0: has_flag(value, 0x00000001u32),
            ignore_duration_mods: has_flag(value, 0x00000002u32),
            reactivate_at_resurrect: has_flag(value, 0x00000004u32),
            is_cheat_spell: has_flag(value, 0x00000008u32),
            unk4: has_flag(value, 0x00000010u32),
            summon_player_totem: has_flag(value, 0x00000020u32),
            no_pushback_on_damage: has_flag(value, 0x00000040u32),
            unk7: has_flag(value, 0x00000080u32),
            horde_only: has_flag(value, 0x00000100u32),
            alliance_only: has_flag(value, 0x00000200u32),
            dispel_charges: has_flag(value, 0x00000400u32),
            interrupt_only_nonplayer: has_flag(value, 0x00000800u32),
            unk12: has_flag(value, 0x00001000u32),
            unk13: has_flag(value, 0x00002000u32),
            unk14: has_flag(value, 0x00004000u32),
            unk15: has_flag(value, 0x00008000u32),
            can_restore_secondary_power: has_flag(value, 0x00010000u32),
            unk17: has_flag(value, 0x00020000u32),
            has_charge_effect: has_flag(value, 0x00040000u32),
            zone_teleport: has_flag(value, 0x00080000u32),
            unk20: has_flag(value, 0x00100000u32),
            unk21: has_flag(value, 0x00200000u32),
            unk22: has_flag(value, 0x00400000u32),
            unk23: has_flag(value, 0x00800000u32),
            unk24: has_flag(value, 0x01000000u32),
            unk25: has_flag(value, 0x02000000u32),
            unk26: has_flag(value, 0x04000000u32),
            unk27: has_flag(value, 0x08000000u32),
            consolidated_raid_buff: has_flag(value, 0x10000000u32),
            unk29: has_flag(value, 0x20000000u32),
            unk30: has_flag(value, 0x40000000u32),
            client_indicator: has_flag(value, 0x80000000u32),
        }
    }

    /// The word with the bits of the set flags.
    pub open spec fn spec_mask(&self) -> u32 {
        ((if self.unk0 { 0x00000001u32 } else { 0u32 })
            | (if self.ignore_duration_mods { 0x00000002u32 } else { 0u32 })
            | (if self.reactivate_at_resurrect { 0x00000004u32 } else { 0u32 })
            | (if self.is_cheat_spell { 0x00000008u32 } else { 0u32 })
            | (if self.unk4 { 0x00000010u32 } else { 0u32 })
            | (if self.summon_player_totem { 0x00000020u32 } else { 0u32 })
            | (if self.no_pushback_on_damage { 0x00000040u32 } else { 0u32 })
            | (if self.unk7 { 0x00000080u32 } else { 0u32 })
            | (if self.horde_only { 0x00000100u32 } else { 0u32 })
            | (if self.alliance_only { 0x00000200u32 } else { 0u32 })
            | (if self.dispel_charges { 0x00000400u32 } else { 0u32 })
            | (if self.interrupt_only_nonplayer { 0x00000800u32 } else { 0u32 })
            | (if self.unk12 { 0x00001000u32 } else { 0u32 })
            | (if self.unk13 { 0x00002000u32 } else { 0u32 })
            | (if self.unk14 { 0x00004000u32 } else { 0u32 })
            | (if self.unk15 { 0x00008000u32 } else { 0u32 }))
            | ((if self.can_restore_secondary_power { 0x00010000u32 } else { 0u32 })
            | (if self.unk17 { 0x00020000u32 } else { 0u32 })
            | (if self.has_charge_effect { 0x00040000u32 } else { 0u32 })
            | (if self.zone_teleport { 0x00080000u32 } else { 0u32 })
            | (if self.unk20 { 0x00100000u32 } else { 0u32 })
            | (if self.unk21 { 0x00200000u32 } else { 0u32 })
            | (if self.unk22 { 0x00400000u32 } else { 0u32 })
            | (if self.unk23 { 0x00800000u32 } else { 0u32 })
            | (if self.unk24 { 0x01000000u32 } else { 0u32 })
            | (if self.unk25 { 0x02000000u32 } else { 0u32 })
            | (if self.unk26 { 0x04000000u32 } else { 0u32 })
            | (if self.unk27 { 0x08000000u32 } else { 0u32 })
            | (if self.consolidated_raid_buff { 0x10000000u32 } else { 0u32 })
            | (if self.unk29 { 0x20000000u32 } else { 0u32 })
            | (if self.unk30 { 0x40000000u32 } else { 0u32 })
            | (if self.client_indicator { 0x80000000u32 } else { 0u32 }))
    }

    /// Reads each flag from its bit of `value`.
    pub fn from_mask(value: u32) -> (r: SpellAttr7)
        ensures
            r == SpellAttr7::spec_from_mask(value),
    {
        SpellAttr7 {
            unk0: has_bit_flag(value, 0x00000001u32),
            ignore_duration_mods: has_bit_flag(value, 0x00000002u32),
            reactivate_at_resurrect: has_bit_flag(value, 0x00000004u32),
            is_cheat_spell: has_bit_flag(value, 0x00000008u32),
            unk4: has_bit_flag(value, 0x00000010u32),
            summon_player_totem: has_bit_flag(value, 0x00000020u32),
            no_pushback_on_damage: has_bit_flag(value, 0x00000040u32),
            unk7: has_bit_flag(value, 0x00000080u32),
            horde_only: has_bit_flag(value, 0x00000100u32),
            alliance_only: has_bit_flag(value, 0x00000200u32),
            dispel_charges: has_bit_flag(value, 0x00000400u32),
            interrupt_only_nonplayer: has_bit_flag(value, 0x00000800u32),
            unk12: has_bit_flag(value, 0x00001000u32),
            unk13: has_bit_flag(value, 0x00002000u32),
            unk14: has_bit_flag(value, 0x00004000u32),
            unk15: has_bit_flag(value, 0x00008000u32),
            can_restore_secondary_power: has_bit_flag(value, 0x00010000u32),
            unk17: has_bit_flag(value, 0x00020000u32),
            has_charge_effect: has_bit_flag(value, 0x00040000u32),
            zone_teleport: has_bit_flag(value, 0x00080000u32),
            unk20: has_bit_flag(value, 0x00100000u32),
            unk21: has_bit_flag(value, 0x00200000u32),
            unk22: has_bit_flag(value, 0x00400000u32),
            unk23: has_bit_flag(value, 0x00800000u32),
            unk24: has_bit_flag(value, 0x01000000u32),
            unk25: has_bit_flag(value, 0x02000000u32),
            unk26: has_bit_flag(value, 0x04000000u32),
            unk27: has_bit_flag(value, 0x08000000u32),
            consolidated_raid_buff: has_bit_flag(value, 0x10000000u32),
            unk29: has_bit_flag(value, 0x20000000u32),
            unk30: has_bit_flag(value, 0x40000000u32),
            client_indicator: has_bit_flag(value, 0x80000000u32),
        }
    }

    /// The word with the bits of the set flags.
    pub fn to_mask(&self) -> (r: u32)
        ensures
            r == self.spec_mask(),
    {
        ((if self.unk0 { 0x00000001u32 } else { 0u32 })
            | (if self.ignore_duration_mods { 0x00000002u32 } else { 0u32 })
            | (if self.reactivate_at_resurrect { 0x00000004u32 } else { 0u32 })
            | (if self.is_cheat_spell { 0x00000008u32 } else { 0u32 })
            | (if self.unk4 { 0x00000010u32 } else { 0u32 })
            | (if self.summon_player_totem { 0x00000020u32 } else { 0u32 })
            | (if self.no_pushback_on_damage { 0x00000040u32 } else { 0u32 })
            | (if self.unk7 { 0x00000080u32 } else { 0u32 })
            | (if self.horde_only { 0x00000100u32 } else { 0u32 })
            | (if self.alliance_only { 0x00000200u32 } else { 0u32 })
            | (if self.dispel_charges { 0x00000400u32 } else { 0u32 })
            | (if self.interrupt_only_nonplayer { 0x00000800u32 } else { 0u32 })
            | (if self.unk12 { 0x00001000u32 } else { 0u32 })
            | (if self.unk13 { 0x00002000u32 } else { 0u32 })
            | (if self.unk14 { 0x00004000u32 } else { 0u32 })
            | (if self.unk15 { 0x00008000u32 } else { 0u32 }))
            | ((if self.can_restore_secondary_power { 0x00010000u32 } else { 0u32 })
            | (if self.unk17 { 0x00020000u32 } else { 0u32 })
            | (if self.has_charge_effect { 0x00040000u32 } else { 0u32 })
            | (if self.zone_teleport { 0x00080000u32 } else { 0u32 })
            | (if self.unk20 { 0x00100000u32 } else { 0u32 })
            | (if self.unk21 { 0x00200000u32 } else { 0u32 })
            | (if self.unk22 { 0x00400000u32 } else { 0u32 })
            | (if self.unk23 { 0x00800000u32 } else { 0u32 })
            | (if self.unk24 { 0x01000000u32 } else { 0u32 })
            | (if self.unk25 { 0x02000000u32 } else { 0u32 })
            | (if self.unk26 { 0x04000000u32 } else { 0u32 })
            | (if self.unk27 { 0x08000000u32 } else { 0u32 })
            | (if self.consolidated_raid_buff { 0x10000000u32 } else { 0u32 })
            | (if self.unk29 { 0x20000000u32 } else { 0u32 })
            | (if self.unk30 { 0x40000000u32 } else { 0u32 })
            | (if self.client_indicator { 0x80000000u32 } else { 0u32 }))
    }
}

/// What dispels a spell.
#[derive(Debug, Clone, Copy, PartialEq, Eq)]
pub enum SpellDispelType {
    DispelNone,
    DispelMagic,
    DispelCurse,
    DispelDisease,
    DispelPoison,
    DispelStealth,
    DispelInvisibility,
    DispelAll,
    DispelSpeNpcOnly,
    DispelEnrage,
    DispelZgTicket,
    DispelOldUnused,
}

impl SpellDispelType {
    /// The code that stands for the variant in a record.
    pub open spec fn code(self) -> u32 {
        match self {
            SpellDispelType::DispelNone => 0,
            SpellDispelType::DispelMagic => 1,
            SpellDispelType::DispelCurse => 2,
            SpellDispelType::DispelDisease => 3,
            SpellDispelType::DispelPoison => 4,
            SpellDispelType::DispelStealth => 5,
            SpellDispelType::DispelInvisibility => 6,
            SpellDispelType::DispelAll => 7,
            SpellDispelType::DispelSpeNpcOnly => 8,
            SpellDispelType::DispelEnrage => 9,
            SpellDispelType::DispelZgTicket => 10,
            SpellDispelType::DispelOldUnused => 11,
        }
    }

    /// The variant with code `v`, if there is one.
    pub fn try_from(v: u32) -> (r: Result<SpellDispelType, ()>)
        ensures
            r is Ok <==> v < 12,
            r matches Ok(x) ==> x.code() == v,
    {
        match v {
            0 => Ok(SpellDispelType::DispelNone),
            1 => Ok(SpellDispelType::DispelMagic),
            2 => Ok(SpellDispelType::DispelCurse),
            3 => Ok(SpellDispelType::DispelDisease),
            4 => Ok(SpellDispelType::DispelPoison),
            5 => Ok(SpellDispelType::DispelStealth),
            6 => Ok(SpellDispelType::DispelInvisibility),
            7 => Ok(SpellDispelType::DispelAll),
            8 => Ok(SpellDispelType::DispelSpeNpcOnly),
            9 => Ok(SpellDispelType::DispelEnrage),
            10 => Ok(SpellDispelType::DispelZgTicket),
            11 => Ok(SpellDispelType::DispelOldUnused),
            _ => Err(()),
        }
    }
}

/// The mechanic of a spell or of one of its effects.
#[derive(Debug, Clone, Copy, PartialEq, Eq)]
pub enum SpellMechanic {
    MechanicNone,
    MechanicCharm,
    MechanicDisoriented,
    MechanicDisarm,
    MechanicDistract,
    MechanicFear,
    MechanicGrip,
    MechanicRoot,
    MechanicSlowAttack,
    MechanicSilence,
    MechanicSleep,
    MechanicSnare,
    MechanicStun,
    MechanicFreeze,
    MechanicKnockout,
    MechanicBleed,
    MechanicBandage,
    MechanicPolymorph,
    MechanicBanish,
    MechanicShield,
    MechanicShackle,
    MechanicMount,
    MechanicInfected,
    MechanicTurn,
    MechanicHorror,
    MechanicInvulnerability,
    MechanicInterrupt,
    MechanicDaze,
    MechanicDiscovery,
    MechanicImmuneShield,
    MechanicSapped,
    MechanicEnraged,
}

impl SpellMechanic {
    /// The code that stands for the variant in a record.
    pub open spec fn code(self) -> u32 {
        match self {
            SpellMechanic::MechanicNone => 0,
            SpellMechanic::MechanicCharm => 1,
            SpellMechanic::MechanicDisoriented => 2,
            SpellMechanic::MechanicDisarm => 3,
            SpellMechanic::MechanicDistract => 4,
            SpellMechanic::MechanicFear => 5,
            SpellMechanic::MechanicGrip => 6,
            SpellMechanic::MechanicRoot => 7,
            SpellMechanic::MechanicSlowAttack => 8,
            SpellMechanic::MechanicSilence => 9,
            SpellMechanic::MechanicSleep => 10,
            SpellMechanic::MechanicSnare => 11,
            SpellMechanic::MechanicStun => 12,
            SpellMechanic::MechanicFreeze => 13,
            SpellMechanic::MechanicKnockout => 14,
            SpellMechanic::MechanicBleed => 15,
            SpellMechanic::MechanicBandage => 16,
            SpellMechanic::MechanicPolymorph => 17,
            SpellMechanic::MechanicBanish => 18,
            SpellMechanic::MechanicShield => 19,
            SpellMechanic::MechanicShackle => 20,
            SpellMechanic::MechanicMount => 21,
            SpellMechanic::MechanicInfected => 22,
            SpellMechanic::MechanicTurn => 23,
            SpellMechanic::MechanicHorror => 24,
            SpellMechanic::MechanicInvulnerability => 25,
            SpellMechanic::MechanicInterrupt => 26,
            SpellMechanic::MechanicDaze => 27,
            SpellMechanic::MechanicDiscovery => 28,
            SpellMechanic::MechanicImmuneShield => 29,
            SpellMechanic::MechanicSapped => 30,
            SpellMechanic::MechanicEnraged => 31,
        }
    }

    /// The variant with code `v`, if there is one.
    pub fn try_from(v: u32) -> (r: Result<SpellMechanic, ()>)
        ensures
            r is Ok <==> v < 32,
            r matches Ok(x) ==> x.code() == v,
    {
        match v {
            0 => Ok(SpellMechanic::MechanicNone),
            1 => Ok(SpellMechanic::MechanicCharm),
            2 => Ok(SpellMechanic::MechanicDisoriented),
            3 => Ok(SpellMechanic::MechanicDisarm),
            4 => Ok(SpellMechanic::MechanicDistract),
            5 => Ok(SpellMechanic::MechanicFear),
            6 => Ok(SpellMechanic::MechanicGrip),
            7 => Ok(SpellMechanic::MechanicRoot),
            8 => Ok(SpellMechanic::MechanicSlowAttack),
            9 => Ok(SpellMechanic::MechanicSilence),
            10 => Ok(SpellMechanic::MechanicSleep),
            11 => Ok(SpellMechanic::MechanicSnare),
            12 => Ok(SpellMechanic::MechanicStun),
            13 => Ok(SpellMechanic::MechanicFreeze),
            14 => Ok(SpellMechanic::MechanicKnockout),
            15 => Ok(SpellMechanic::MechanicBleed),
            16 => Ok(SpellMechanic::MechanicBandage),
            17 => Ok(SpellMechanic::MechanicPolymorph),
            18 => Ok(SpellMechanic::MechanicBanish),
            19 => Ok(SpellMechanic::MechanicShield),
            20 => Ok(SpellMechanic::MechanicShackle),
            21 => Ok(SpellMechanic::MechanicMount),
            22 => Ok(SpellMechanic::MechanicInfected),
            23 => Ok(SpellMechanic::MechanicTurn),
            24 => Ok(SpellMechanic::MechanicHorror),
            25 => Ok(SpellMechanic::MechanicInvulnerability),
            26 => Ok(SpellMechanic::MechanicInterrupt),
            27 => Ok(SpellMechanic::MechanicDaze),
            28 => Ok(SpellMechanic::MechanicDiscovery),
            29 => Ok(SpellMechanic::MechanicImmuneShield),
            30 => Ok(SpellMechanic::MechanicSapped),
            31 => Ok(SpellMechanic::MechanicEnraged),
            _ => Err(()),
        }
    }
}

} // verus!
