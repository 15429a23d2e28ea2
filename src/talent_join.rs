use vstd::prelude::*;
use crate::dbc_tables::{
    load_spell_icon_dbc_from_path, load_talent_dbc_from_path, load_talent_tab_dbc_from_path,
    SpellIconDbcRow, TalentDbcRow, TalentTabRow,
};
use crate::dbc::{column_value, record_count, record_view, DbcRowMapper};
use crate::spell_join::{load_spells, spell_keys};
use crate::error::DecodeError;
use crate::join::{all_distinct, dbc_decodes, find_id_from, group_by, ids_of, record_ids, ById};
use crate::spell_table::SpellDbcRow;

verus! {

/// The talents of a join.
#[derive(Debug)]
pub struct GetTalentsJoinCmdResult(pub Vec<JoinedTalentRow>);

/// A talent with its tab and the spells of its ranks looked up.
#[derive(Debug)]
pub struct JoinedTalentRow {
    pub id: u32,
    pub talent_tab: JoinedTalentTab,
    pub tier: u32,
    pub column_index: u32,
    pub spell_rank_ids: Vec<JoinedTalentSpell>,
    pub required_talent_ids: [u32; 3],
    pub required_talent_point_rank_ids: [u32; 3],
    pub only_one_point: bool,
}

/// The spell of one rank of a talent.
#[derive(Debug)]
pub struct JoinedTalentSpell {
    pub id: u32,
    pub name: String,
}

/// A spell that a talent requires, with its name where it is known.
#[derive(Debug)]
pub struct JoinedTalentSpellReq {
    pub id: u32,
    pub name: Option<String>,
}

/// A talent tree with its icon looked up.
#[derive(Debug)]
pub struct JoinedTalentTab {
    pub id: u32,
    pub name: String,
    pub spell_icon: SpellIconDbcRow,
    pub race_mask: u32,
    pub class_mask: u32,
    pub hunter_pet_category_id: u32,
    pub order_index: u32,
    pub background_file: String,
}

/// The ranks of a talent that name a spell, in order.
pub open spec fn ranked_spells(ids: Seq<u32>) -> Seq<u32>
    decreases ids.len(),
{
    if ids.len() == 0 {
        ids
    } else if ids.last() > 0 {
        ranked_spells(ids.drop_last()).push(ids.last())
    } else {
        ranked_spells(ids.drop_last())
    }
}

/// Some tab with id `tab_id` has an icon among `icon_ids`.
pub open spec fn tab_has_icon(tabs: Seq<TalentTabRow>, icon_ids: Seq<u32>, tab_id: u32) -> bool {
    exists|i: int| 0 <= i < tabs.len() && #[trigger] tabs[i].id == tab_id && icon_ids.contains(tabs[i].spell_icon_id)
}

/// Every rank of a talent that names a spell names one among `spell_ids`.
pub open spec fn ranks_known(ranks: Seq<u32>, spell_ids: Seq<u32>) -> bool {
    forall|k: int| 0 <= k < ranks.len() && ranks[k] > 0 ==> spell_ids.contains(#[trigger] ranks[k])
}

/// `t` is the join of the talent `row`.
pub open spec fn talent_joined(t: JoinedTalentRow, row: TalentDbcRow) -> bool {
    &&& t.id == row.id
    &&& t.talent_tab.id == row.talent_tab_id
    &&& t.tier == row.tier
    &&& t.column_index == row.column_index
    &&& t.required_talent_ids == row.required_talent_ids
    &&& t.required_talent_point_rank_ids == row.required_talent_point_rank_ids
    &&& t.only_one_point == row.only_one_point
    &&& t.spell_rank_ids@.len() == ranked_spells(row.spell_rank_ids@).len()
    &&& forall|k: int|
        0 <= k < t.spell_rank_ids@.len() ==> (#[trigger] t.spell_rank_ids@[k]).id == ranked_spells(
            row.spell_rank_ids@,
        )[k]
}

fn map_talent_tab(
    id: u32,
    talent_tabs_by_id: &ById<TalentTabRow>,
    spell_icons_by_id: &ById<SpellIconDbcRow>,
) -> (r: Result<JoinedTalentTab, DecodeError>)
    requires
        talent_tabs_by_id.wf(),
        spell_icons_by_id.wf(),
    ensures
        r is Ok <==> tab_has_icon(talent_tabs_by_id.rows(), ids_of(spell_icons_by_id.rows()), id),
        r matches Ok(t) ==> t.id == id,
        r matches Err(e) ==> e == DecodeError::MissingRecord,
{
    let row = match talent_tabs_by_id.get(id) {
        Some(row) => row,
        None => {
            proof {
                if tab_has_icon(talent_tabs_by_id.rows(), ids_of(spell_icons_by_id.rows()), id) {
                    let i = choose|i: int| 0 <= i < talent_tabs_by_id.rows().len() && #[trigger] talent_tabs_by_id.rows()[i].id == id
                        && ids_of(spell_icons_by_id.rows()).contains(talent_tabs_by_id.rows()[i].spell_icon_id);
                    assert(ids_of(talent_tabs_by_id.rows())[i] == id);
                }
            }
            return Err(DecodeError::MissingRecord);
        },
    };
    let ghost tabs = talent_tabs_by_id.rows();
    let ghost ti = choose|i: int| 0 <= i < tabs.len() && tabs[i] == *row && row.id == id;
    let spell_icon = match spell_icons_by_id.get(row.spell_icon_id) {
        Some(icon) => SpellIconDbcRow { id: icon.id, file_name: icon.file_name.clone() },
        None => {
            proof {
                if tab_has_icon(tabs, ids_of(spell_icons_by_id.rows()), id) {
                    let j = choose|j: int| 0 <= j < tabs.len() && #[trigger] tabs[j].id == id
                        && ids_of(spell_icons_by_id.rows()).contains(tabs[j].spell_icon_id);
                    assert(ids_of(tabs)[j] == ids_of(tabs)[ti]);
                    if j != ti {
                        if j < ti {
                            assert(ids_of(tabs)[j] != ids_of(tabs)[ti]);
                        } else {
                            assert(ids_of(tabs)[ti] != ids_of(tabs)[j]);
                        }
                    }
                }
            }
            return Err(DecodeError::MissingRecord);
        },
    };
    assert(tabs[ti].id == id && ids_of(spell_icons_by_id.rows()).contains(tabs[ti].spell_icon_id));
    Ok(
        JoinedTalentTab {
            id,
            name: row.name.clone(),
            spell_icon,
            race_mask: row.race_mask,
            class_mask: row.class_mask,
            hunter_pet_category_id: row.hunter_pet_category_id,
            order_index: row.order_index,
            background_file: row.background_file.clone(),
        },
    )
}

fn map_spell_ranks(spell_id: u32, spells_by_id: &ById<SpellDbcRow>) -> (r: Result<
    JoinedTalentSpell,
    DecodeError,
>)
    requires
        spells_by_id.wf(),
    ensures
        r is Ok <==> ids_of(spells_by_id.rows()).contains(spell_id),
        r matches Ok(s) ==> s.id == spell_id,
        r matches Err(e) ==> e == DecodeError::MissingRecord,
{
    match spells_by_id.get(spell_id) {
        Some(spell) => Ok(JoinedTalentSpell { id: spell_id, name: spell.spell_name.clone() }),
        None => Err(DecodeError::MissingRecord),
    }
}

fn map_talent(
    row: &TalentDbcRow,
    talent_tabs_by_id: &ById<TalentTabRow>,
    spell_icons_by_id: &ById<SpellIconDbcRow>,
    spells_by_id: &ById<SpellDbcRow>,
) -> (r: Result<JoinedTalentRow, DecodeError>)
    requires
        talent_tabs_by_id.wf(),
        spell_icons_by_id.wf(),
        spells_by_id.wf(),
    ensures
        r is Ok <==> tab_has_icon(talent_tabs_by_id.rows(), ids_of(spell_icons_by_id.rows()), row.talent_tab_id)
            && ranks_known(row.spell_rank_ids@, ids_of(spells_by_id.rows())),
        r matches Ok(t) ==> talent_joined(t, *row),
{
    let talent_tab = map_talent_tab(row.talent_tab_id, talent_tabs_by_id, spell_icons_by_id)?;
    let mut ranks: Vec<JoinedTalentSpell> = Vec::new();
    let mut i: usize = 0;
    while i < 9
        invariant
            i <= 9,
            row.spell_rank_ids@.len() == 9,
            spells_by_id.wf(),
            ranks_known(row.spell_rank_ids@.subrange(0, i as int), ids_of(spells_by_id.rows())),
            ranks@.len() == ranked_spells(row.spell_rank_ids@.subrange(0, i as int)).len(),
            forall|k: int|
                0 <= k < ranks@.len() ==> (#[trigger] ranks@[k]).id == ranked_spells(
                    row.spell_rank_ids@.subrange(0, i as int),
                )[k],
        decreases 9 - i,
    {
        let ghost prev = row.spell_rank_ids@.subrange(0, i as int);
        let ghost next = row.spell_rank_ids@.subrange(0, i + 1);
        assert(next.drop_last() =~= prev);
        assert(next[i as int] == row.spell_rank_ids@[i as int]);
        let spell_id = row.spell_rank_ids[i];
        if spell_id > 0 {
            let spell = match map_spell_ranks(spell_id, spells_by_id) {
                Ok(s) => s,
                Err(e) => {
                    assert(row.spell_rank_ids@[i as int] > 0 && !ids_of(spells_by_id.rows()).contains(row.spell_rank_ids@[i as int]));
                    return Err(e);
                },
            };
            ranks.push(spell);
        }
        assert forall|k: int| 0 <= k < next.len() && next[k] > 0 implies ids_of(spells_by_id.rows()).contains(#[trigger] next[k]) by {
            if k < i {
                assert(next[k] == prev[k]);
            }
        }
        i = i + 1;
    }
    assert(row.spell_rank_ids@.subrange(0, 9) =~= row.spell_rank_ids@);
    Ok(
        JoinedTalentRow {
            id: row.id,
            talent_tab,
            tier: row.tier,
            column_index: row.column_index,
            spell_rank_ids: ranks,
            required_talent_ids: row.required_talent_ids,
            required_talent_point_rank_ids: row.required_talent_point_rank_ids,
            only_one_point: row.only_one_point,
        },
    )
}

/// Some record of the tab file `tab` has id `tab_id` and an icon among the icon file's ids.
pub open spec fn tab_resolves(tab: Seq<u8>, icon: Seq<u8>, tab_id: u32) -> bool {
    exists|j: int|
        0 <= j < record_count(tab) && #[trigger] record_ids(tab)[j] == tab_id && record_ids(icon).contains(
            column_value(record_view(tab, j), 19),
        )
}

/// The nine spell ranks of record `k` of the talent file `b`.
pub open spec fn rank_columns(b: Seq<u8>, k: int) -> Seq<u32> {
    Seq::new(9, |r: int| column_value(record_view(b, k), 5 + r))
}

/// Record `k` of the talent file refers only to a tab, an icon and spells that exist.
pub open spec fn talent_resolves(talent: Seq<u8>, k: int, tab: Seq<u8>, spell: Seq<u8>, icon: Seq<u8>) -> bool {
    &&& tab_resolves(tab, icon, column_value(record_view(talent, k), 2))
    &&& ranks_known(rank_columns(talent, k), record_ids(spell))
}

/// The join succeeds: the four files decode, tab, spell and icon ids are unique, and every
/// selected talent resolves; a requested id must be among the talents.
pub open spec fn talents_join_ok(talent: Seq<u8>, tab: Seq<u8>, spell: Seq<u8>, icon: Seq<u8>, record_id: Option<u32>) -> bool {
    &&& dbc_decodes::<TalentDbcRow>(talent)
    &&& dbc_decodes::<TalentTabRow>(tab)
    &&& dbc_decodes::<SpellDbcRow>(spell)
    &&& dbc_decodes::<SpellIconDbcRow>(icon)
    &&& all_distinct(record_ids(tab))
    &&& all_distinct(record_ids(spell))
    &&& all_distinct(record_ids(icon))
    &&& match record_id {
        None => forall|k: int| 0 <= k < record_count(talent) ==> #[trigger] talent_resolves(talent, k, tab, spell, icon),
        Some(id) => match find_id_from(record_ids(talent), id, 0) {
            Some(k) => talent_resolves(talent, k, tab, spell, icon),
            None => false,
        },
    }
}

/// `t` is the join of record `k` of the talent file `b`.
pub open spec fn joined_talent_record(t: JoinedTalentRow, b: Seq<u8>, k: int) -> bool {
    exists|row: TalentDbcRow| #[trigger] TalentDbcRow::decoded_from(row, record_view(b, k)) && talent_joined(t, row)
}

/// Joins the talents of a talent file with the tab, spell and icon files, each given by
/// its contents. With a record id only the first talent with that id is joined, and a
/// missing one is an error; a tab, spell or icon that a talent refers to and that is missing
/// is an error too.
#[verifier::loop_isolation(false)]
pub fn get_talents_join(
    talent_content: Vec<u8>,
    talent_tab_content: Vec<u8>,
    spell_content: Vec<u8>,
    spell_icon_content: Vec<u8>,
    record_id: Option<u32>,
) -> (r: Result<GetTalentsJoinCmdResult, DecodeError>)
    ensures
        r is Ok <==> talents_join_ok(talent_content@, talent_tab_content@, spell_content@, spell_icon_content@, record_id),
        r matches Ok(j) ==> record_id is Some ==> j.0@.len() == 1 && joined_talent_record(
            j.0@[0],
            talent_content@,
            find_id_from(record_ids(talent_content@), record_id->0, 0)->0,
        ),
        r matches Ok(j) ==> record_id is None ==> j.0@.len() == record_count(talent_content@),
        r matches Ok(j) ==> record_id is None ==> forall|k: int|
            0 <= k < j.0@.len() ==> joined_talent_record(#[trigger] j.0@[k], talent_content@, k),
{
    let ghost tal_b = talent_content@;
    let ghost tab_b = talent_tab_content@;
    let ghost spell_b = spell_content@;
    let ghost icon_b = spell_icon_content@;
    let talents = load_talent_dbc_from_path(talent_content)?.rows;
    let tab_rows = load_talent_tab_dbc_from_path(talent_tab_content)?.rows;
    let spell_rows = load_spells(spell_content)?;
    let icon_rows = load_spell_icon_dbc_from_path(spell_icon_content)?.rows;
    assert(ids_of(tab_rows@) =~= record_ids(tab_b)) by {
        assert forall|k: int| 0 <= k < tab_rows@.len() implies #[trigger] ids_of(tab_rows@)[k] == record_ids(tab_b)[k] by {
            assert(TalentTabRow::decoded_from(tab_rows@[k], record_view(tab_b, k)));
        }
    }
    assert(ids_of(spell_rows@) =~= record_ids(spell_b)) by {
        assert forall|k: int| 0 <= k < spell_rows@.len() implies #[trigger] ids_of(spell_rows@)[k] == record_ids(spell_b)[k] by {
            assert(spell_keys(spell_rows@[k], spell_b, k));
        }
    }
    assert(ids_of(icon_rows@) =~= record_ids(icon_b)) by {
        assert forall|k: int| 0 <= k < icon_rows@.len() implies #[trigger] ids_of(icon_rows@)[k] == record_ids(icon_b)[k] by {
            assert(SpellIconDbcRow::decoded_from(icon_rows@[k], record_view(icon_b, k)));
        }
    }
    assert forall|t: u32| tab_has_icon(tab_rows@, record_ids(icon_b), t) == tab_resolves(tab_b, icon_b, t) by {
        if tab_has_icon(tab_rows@, record_ids(icon_b), t) {
            let i = choose|i: int| 0 <= i < tab_rows@.len() && #[trigger] tab_rows@[i].id == t && record_ids(icon_b).contains(tab_rows@[i].spell_icon_id);
            assert(TalentTabRow::decoded_from(tab_rows@[i], record_view(tab_b, i)));
            assert(record_ids(tab_b)[i] == t);
        }
        if tab_resolves(tab_b, icon_b, t) {
            let j = choose|j: int| 0 <= j < record_count(tab_b) && #[trigger] record_ids(tab_b)[j] == t && record_ids(icon_b).contains(column_value(record_view(tab_b, j), 19));
            assert(TalentTabRow::decoded_from(tab_rows@[j], record_view(tab_b, j)));
            assert(tab_rows@[j].id == t);
        }
    }
    let talent_tabs_by_id = group_by(tab_rows)?;
    let spells_by_id = group_by(spell_rows)?;
    let spell_icons_by_id = group_by(icon_rows)?;
    let mut out: Vec<JoinedTalentRow> = Vec::new();
    let mut i: usize = 0;
    while i < talents.len()
        invariant
            i <= talents@.len(),
            talent_tabs_by_id.wf(),
            spells_by_id.wf(),
            spell_icons_by_id.wf(),
            talent_tabs_by_id.rows() == tab_rows@,
            ids_of(spells_by_id.rows()) == record_ids(spell_b),
            ids_of(spell_icons_by_id.rows()) == record_ids(icon_b),
            record_id is Some ==> out@.len() == 0,
            record_id is None ==> out@.len() == i,
            record_id matches Some(id) ==> find_id_from(record_ids(tal_b), id, 0) == find_id_from(record_ids(tal_b), id, i as int),
            record_id is None ==> forall|k: int| 0 <= k < i ==> #[trigger] talent_resolves(tal_b, k, tab_b, spell_b, icon_b),
            forall|k: int| 0 <= k < out@.len() ==> talent_joined(#[trigger] out@[k], talents@[k]),
            talents@.len() == record_count(tal_b),
        decreases talents@.len() - i,
    {
        let talent = &talents[i];
        assert(TalentDbcRow::decoded_from(talents@[i as int], record_view(tal_b, i as int)));
        assert(talent.spell_rank_ids@ =~= rank_columns(tal_b, i as int));
        assert(record_ids(tal_b)[i as int] == talent.id);
        let selected = match record_id {
            Some(id) => talent.id == id,
            None => true,
        };
        if selected {
            let joined = match map_talent(talent, &talent_tabs_by_id, &spell_icons_by_id, &spells_by_id) {
                Ok(t) => t,
                Err(e) => {
                    assert(!talent_resolves(tal_b, i as int, tab_b, spell_b, icon_b));
                    return Err(e);
                },
            };
            match record_id {
                Some(id) => {
                    let mut single: Vec<JoinedTalentRow> = Vec::new();
                    single.push(joined);
                    assert(find_id_from(record_ids(tal_b), id, i as int) == Some(i as int));
                    assert(joined_talent_record(single@[0], tal_b, i as int));
                    return Ok(GetTalentsJoinCmdResult(single));
                },
                None => {
                    out.push(joined);
                },
            }
        }
        i = i + 1;
    }
    proof {
        if record_id is None {
            assert forall|k: int| 0 <= k < out@.len() implies joined_talent_record(#[trigger] out@[k], tal_b, k) by {
                assert(TalentDbcRow::decoded_from(talents@[k], record_view(tal_b, k)));
                assert(talent_joined(out@[k], talents@[k]));
            }
        }
    }
    match record_id {
        Some(_) => Err(DecodeError::MissingRecord),
        None => Ok(GetTalentsJoinCmdResult(out)),
    }
}

} // verus!
