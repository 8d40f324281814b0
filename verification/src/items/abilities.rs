use vstd::prelude::*;
use vstd::string::StringExecFns;

use crate::common::clamp_i32;
use crate::text::{append_decimal, decimal};

verus! {

broadcast use {vstd::seq_lib::group_seq_properties, vstd::seq::group_seq_axioms};

/// One bonus on an ability, with the item that gave it.
#[derive(Clone, Copy, Debug, PartialEq, Eq, Structural)]
pub struct ModifierEntry {
    pub source: u64,
    pub amount: i32,
}

/// The sum of all bonuses.
pub open spec fn modifier_total(entries: Seq<ModifierEntry>) -> int
    decreases entries.len(),
{
    if entries.len() == 0 {
        0
    } else {
        modifier_total(entries.drop_last()) + entries.last().amount
    }
}

/// Holds of the entries that `source` did not give.
pub open spec fn from_other_source(source: u64) -> spec_fn(ModifierEntry) -> bool {
    |entry: ModifierEntry| entry.source != source
}

/// Holds of the entries that `source` gave.
pub open spec fn from_source(source: u64) -> spec_fn(ModifierEntry) -> bool {
    |entry: ModifierEntry| entry.source == source
}

/// The bonus that `source` has given.
pub open spec fn modifier_from(entries: Seq<ModifierEntry>, source: u64) -> int {
    modifier_total(entries.filter(from_source(source)))
}

/// The bonuses after `source` gives `amount`: what it gave before is gone,
/// what others gave stays.
pub open spec fn modifier_set(entries: Seq<ModifierEntry>, source: u64, amount: i32) -> Seq<
    ModifierEntry,
> {
    entries.filter(from_other_source(source)).push(ModifierEntry { source, amount })
}

proof fn lemma_total_push(entries: Seq<ModifierEntry>, entry: ModifierEntry)
    ensures
        modifier_total(entries.push(entry)) == modifier_total(entries) + entry.amount,
{
    assert(entries.push(entry).drop_last() =~= entries);
}

proof fn lemma_total_split(entries: Seq<ModifierEntry>, source: u64)
    ensures
        modifier_total(entries) == modifier_total(entries.filter(from_source(source)))
            + modifier_total(entries.filter(from_other_source(source))),
    decreases entries.len(),
{
    if entries.len() == 0 {
        assert(entries.filter(from_source(source)) =~= Seq::<ModifierEntry>::empty());
        assert(entries.filter(from_other_source(source)) =~= Seq::<ModifierEntry>::empty());
    } else {
        let rest = entries.drop_last();
        let last = entries.last();
        lemma_total_split(rest, source);
        assert(rest.push(last) =~= entries);
        rest.lemma_filter_push(last, from_source(source));
        rest.lemma_filter_push(last, from_other_source(source));
        if last.source == source {
            lemma_total_push(rest.filter(from_source(source)), last);
        } else {
            lemma_total_push(rest.filter(from_other_source(source)), last);
        }
    }
}

proof fn lemma_filter_none(entries: Seq<ModifierEntry>, keep: spec_fn(ModifierEntry) -> bool)
    requires
        forall|i: int| 0 <= i < entries.len() ==> !keep(#[trigger] entries[i]),
    ensures
        entries.filter(keep) == Seq::<ModifierEntry>::empty(),
    decreases entries.len(),
{
    if entries.len() == 0 {
        assert(entries.filter(keep) =~= Seq::<ModifierEntry>::empty());
    } else {
        let rest = entries.drop_last();
        assert forall|i: int| 0 <= i < rest.len() implies !keep(#[trigger] rest[i]) by {
            assert(rest[i] == entries[i]);
        }
        lemma_filter_none(rest, keep);
        assert(rest.push(entries.last()) =~= entries);
        rest.lemma_filter_push(entries.last(), keep);
    }
}

proof fn lemma_filter_twice(entries: Seq<ModifierEntry>, source: u64, other: u64)
    requires
        other != source,
    ensures
        entries.filter(from_other_source(source)).filter(from_source(other)) == entries.filter(
            from_source(other),
        ),
    decreases entries.len(),
{
    if entries.len() == 0 {
        assert(entries.filter(from_other_source(source)) =~= Seq::<ModifierEntry>::empty());
        assert(entries.filter(from_source(other)) =~= Seq::<ModifierEntry>::empty());
        assert(Seq::<ModifierEntry>::empty().filter(from_source(other)) =~= Seq::<
            ModifierEntry,
        >::empty());
    } else {
        let rest = entries.drop_last();
        let last = entries.last();
        lemma_filter_twice(rest, source, other);
        assert(rest.push(last) =~= entries);
        rest.lemma_filter_push(last, from_other_source(source));
        rest.lemma_filter_push(last, from_source(other));
        if last.source != source {
            rest.filter(from_other_source(source)).lemma_filter_push(last, from_source(other));
        }
    }
}

/// A source that gives again replaces what it gave: afterwards its bonus
/// is the new amount, whatever it gave before.
pub proof fn lemma_set_overwrites(entries: Seq<ModifierEntry>, source: u64, amount: i32)
    ensures
        modifier_from(modifier_set(entries, source, amount), source) == amount,
{
    let kept = entries.filter(from_other_source(source));
    let entry = ModifierEntry { source, amount };
    assert forall|i: int| 0 <= i < kept.len() implies !from_source(source)(#[trigger] kept[i]) by {
        entries.lemma_filter_pred(from_other_source(source), i);
    }
    lemma_filter_none(kept, from_source(source));
    kept.lemma_filter_push(entry, from_source(source));
    lemma_total_push(Seq::<ModifierEntry>::empty(), entry);
}

/// Bonuses of distinct sources stand side by side: what one source gives
/// leaves the bonus of every other source as it was.
pub proof fn lemma_set_keeps_others(
    entries: Seq<ModifierEntry>,
    source: u64,
    amount: i32,
    other: u64,
)
    requires
        other != source,
    ensures
        modifier_from(modifier_set(entries, source, amount), other) == modifier_from(
            entries,
            other,
        ),
{
    let kept = entries.filter(from_other_source(source));
    let entry = ModifierEntry { source, amount };
    kept.lemma_filter_push(entry, from_source(other));
    lemma_filter_twice(entries, source, other);
}

/// The sum after `source` gives `amount` is the old sum, less what `source`
/// gave before, plus `amount`.
pub proof fn lemma_set_total(entries: Seq<ModifierEntry>, source: u64, amount: i32)
    ensures
        modifier_total(modifier_set(entries, source, amount)) == modifier_total(entries)
            - modifier_from(entries, source) + amount,
{
    lemma_total_split(entries, source);
    lemma_total_push(
        entries.filter(from_other_source(source)),
        ModifierEntry { source, amount },
    );
}

/// The bonuses that other items have laid on one ability, each under the id
/// of the item that gave it.
#[derive(Debug)]
pub struct AbilityModifier {
    entries: Vec<ModifierEntry>,
}

impl View for AbilityModifier {
    type V = Seq<ModifierEntry>;

    closed spec fn view(&self) -> Seq<ModifierEntry> {
        self.entries@
    }
}

impl Clone for AbilityModifier {
    fn clone(&self) -> (copy: Self)
        ensures
            copy@ == self@,
    {
        let mut entries: Vec<ModifierEntry> = Vec::new();
        let mut i: usize = 0;
        while i < self.entries.len()
            invariant
                i <= self.entries.len(),
                entries@ == self.entries@.take(i as int),
            decreases self.entries.len() - i,
        {
            entries.push(self.entries[i]);
            i += 1;
        }
        AbilityModifier { entries }
    }
}

impl Default for AbilityModifier {
    fn default() -> (modifier: Self)
        ensures
            modifier@ == Seq::<ModifierEntry>::empty(),
    {
        AbilityModifier::new()
    }
}

impl AbilityModifier {
    /// No bonus from anyone.
    pub fn new() -> (modifier: Self)
        ensures
            modifier@ == Seq::<ModifierEntry>::empty(),
    {
        AbilityModifier { entries: Vec::new() }
    }

    /// The exact sum of all bonuses.
    pub fn total(&self) -> (total: i128)
        ensures
            total == modifier_total(self@),
            -0x8000_0000 * usize::MAX <= total <= 0x8000_0000 * usize::MAX,
    {
        let mut total: i128 = 0;
        let mut i: usize = 0;
        while i < self.entries.len()
            invariant
                i <= self.entries.len(),
                total == modifier_total(self.entries@.take(i as int)),
                -0x8000_0000 * i <= total <= 0x8000_0000 * i,
            decreases self.entries.len() - i,
        {
            proof {
                assert(self.entries@.take(i + 1).drop_last() =~= self.entries@.take(i as int));
            }
            total = total + self.entries[i].amount as i128;
            i += 1;
        }
        proof {
            assert(self.entries@.take(self.entries.len() as int) =~= self.entries@);
        }
        total
    }

    /// The sum of all bonuses, held to the range of `i32`.
    pub fn amount(&self) -> (amount: i32)
        ensures
            amount == clamp_i32(modifier_total(self@)),
    {
        clamp_wide(self.total())
    }

    /// What an ability with this `base` comes to under these bonuses.
    pub fn plus(&self, base: i32) -> (amount: i32)
        ensures
            amount == ability_amount(base, self@),
    {
        let total = self.total();
        clamp_wide(base as i128 + total)
    }

    /// Sets the bonus of `source` to `amount`, in place of what it gave before.
    pub fn set(&mut self, source: u64, amount: i32)
        ensures
            final(self)@ == modifier_set(old(self)@, source, amount),
    {
        let ghost keep = from_other_source(source);
        let mut kept: Vec<ModifierEntry> = Vec::new();
        let mut i: usize = 0;
        while i < self.entries.len()
            invariant
                i <= self.entries.len(),
                keep == from_other_source(source),
                kept@ == self.entries@.take(i as int).filter(keep),
            decreases self.entries.len() - i,
        {
            let entry = self.entries[i];
            proof {
                assert(self.entries@.take(i + 1) =~= self.entries@.take(i as int).push(entry));
                self.entries@.take(i as int).lemma_filter_push(entry, keep);
            }
            if entry.source != source {
                kept.push(entry);
            }
            i += 1;
        }
        proof {
            assert(self.entries@.take(self.entries.len() as int) =~= self.entries@);
        }
        kept.push(ModifierEntry { source, amount });
        self.entries = kept;
    }

    /// Drops every bonus.
    pub fn clear(&mut self)
        ensures
            final(self)@ == Seq::<ModifierEntry>::empty(),
    {
        self.entries.clear();
    }

    /// The bonuses one by one, oldest first.
    pub fn entries(&self) -> (entries: Vec<ModifierEntry>)
        ensures
            entries@ == self@,
    {
        self.clone().entries
    }
}

/// `x` held to the range of `i32`.
pub fn clamp_wide(x: i128) -> (r: i32)
    ensures
        r == clamp_i32(x as int),
{
    if x < i32::MIN as i128 {
        i32::MIN
    } else if x > i32::MAX as i128 {
        i32::MAX
    } else {
        x as i32
    }
}

/// What an ability comes to: its base and all bonuses on it, held to the
/// range of `i32`.
pub open spec fn ability_amount(base: i32, modifier: Seq<ModifierEntry>) -> i32 {
    clamp_i32(base + modifier_total(modifier))
}

/// The rule by which an area ability picks slots of the scroll, seen from
/// the slot of the item that carries it.
#[derive(Clone, Copy, Debug, PartialEq, Eq, Structural)]
pub enum TargetFilter {
    All,
    Next(usize),
    Prev(usize),
    Neighbours,
    AllNext,
    AllPrev,
}

impl Default for TargetFilter {
    fn default() -> (filter: Self)
        ensures
            filter == TargetFilter::All,
    {
        TargetFilter::All
    }
}

/// The scroll's ids, each with its position.
pub open spec fn enumerate(list: Seq<u64>) -> Seq<(int, u64)> {
    Seq::new(list.len(), |i: int| (i, list[i]))
}

/// The id of a slot given with its position.
pub open spec fn slot_id() -> spec_fn((int, u64)) -> u64 {
    |slot: (int, u64)| slot.1
}

impl TargetFilter {
    /// Whether the rule picks position `i`, seen from position `index`.
    pub open spec fn selects(self, index: int, i: int) -> bool {
        match self {
            TargetFilter::All => true,
            TargetFilter::AllNext => i > index,
            TargetFilter::Next(n) => index < i <= index + n,
            TargetFilter::AllPrev => i < index,
            TargetFilter::Prev(n) => index - n <= i < index,
            TargetFilter::Neighbours => i == index - 1 || i == index + 1,
        }
    }

    /// Holds of the slots that the rule picks for the item `entity` at
    /// `index`: never the item itself.
    pub open spec fn keeps(self, index: int, entity: u64) -> spec_fn((int, u64)) -> bool {
        |slot: (int, u64)| slot.1 != entity && self.selects(index, slot.0)
    }

    /// The ids that the rule picks from `list` for the item `entity` at
    /// `index`, in the order of `list`.
    pub open spec fn targets(self, index: int, entity: u64, list: Seq<u64>) -> Seq<u64> {
        enumerate(list).filter(self.keeps(index, entity)).map_values(slot_id())
    }

    /// The name of the rule as a tooltip shows it.
    pub open spec fn spec_name(self) -> Seq<char> {
        match self {
            TargetFilter::All => "ALL"@,
            TargetFilter::Next(n) => "NEXT "@ + decimal(n as nat),
            TargetFilter::Prev(n) => "PREV "@ + decimal(n as nat),
            TargetFilter::Neighbours => "NEIGHBOURS"@,
            TargetFilter::AllNext => "ALL NEXT"@,
            TargetFilter::AllPrev => "ALL PREV"@,
        }
    }

    pub fn name(&self) -> (name: String)
        ensures
            name@ == self.spec_name(),
    {
        match self {
            TargetFilter::All => String::from_str("ALL"),
            TargetFilter::Next(n) => {
                let mut name = String::from_str("NEXT ");
                append_decimal(&mut name, *n as u64);
                name
            },
            TargetFilter::Prev(n) => {
                let mut name = String::from_str("PREV ");
                append_decimal(&mut name, *n as u64);
                name
            },
            TargetFilter::Neighbours => String::from_str("NEIGHBOURS"),
            TargetFilter::AllNext => String::from_str("ALL NEXT"),
            TargetFilter::AllPrev => String::from_str("ALL PREV"),
        }
    }

    /// Whether the rule picks position `i`, seen from position `index`.
    pub fn picks(&self, index: usize, i: usize) -> (picked: bool)
        ensures
            picked == self.selects(index as int, i as int),
    {
        match self {
            TargetFilter::All => true,
            TargetFilter::AllNext => i > index,
            TargetFilter::Next(n) => i > index && i - index <= *n,
            TargetFilter::AllPrev => i < index,
            TargetFilter::Prev(n) => i < index && index - i <= *n,
            TargetFilter::Neighbours => (i < index && index - i == 1) || (i > index && i - index
                == 1),
        }
    }

    /// Resolves the rule for the item `entity`, which stands at `index` in
    /// `list`: the ids of the slots it aims at, in scroll order.
    pub fn get_targets(&self, index: usize, entity: u64, list: &[u64]) -> (targets: Vec<u64>)
        ensures
            targets@ == self.targets(index as int, entity, list@),
    {
        let ghost all = enumerate(list@);
        let ghost keep = self.keeps(index as int, entity);
        let mut targets: Vec<u64> = Vec::new();
        let mut i: usize = 0;
        while i < list.len()
            invariant
                i <= list.len(),
                all == enumerate(list@),
                keep == self.keeps(index as int, entity),
                targets@ == all.take(i as int).filter(keep).map_values(slot_id()),
            decreases list.len() - i,
        {
            let id = list[i];
            proof {
                let prefix = all.take(i as int);
                assert(all.take(i + 1) =~= prefix.push((i as int, id)));
                prefix.lemma_filter_push((i as int, id), keep);
                prefix.filter(keep).lemma_push_map_commute(slot_id(), (i as int, id));
            }
            if id != entity && self.picks(index, i) {
                targets.push(id);
            }
            i += 1;
        }
        proof {
            assert(all.take(list.len() as int) =~= all);
        }
        targets
    }
}

proof fn lemma_prefix_membership(
    filter: TargetFilter,
    index: int,
    entity: u64,
    list: Seq<u64>,
    n: int,
    id: u64,
)
    requires
        0 <= n <= list.len(),
    ensures
        enumerate(list).take(n).filter(filter.keeps(index, entity)).map_values(
            slot_id(),
        ).contains(id) <==> exists|i: int|
            0 <= i < n && #[trigger] list[i] == id && id != entity && filter.selects(index, i),
    decreases n,
{
    let keep = filter.keeps(index, entity);
    let all = enumerate(list);
    if n == 0 {
        assert(all.take(0).filter(keep) =~= Seq::<(int, u64)>::empty());
    } else {
        let prefix = all.take(n - 1);
        let slot = (n - 1, list[n - 1]);
        lemma_prefix_membership(filter, index, entity, list, n - 1, id);
        assert(all.take(n) =~= prefix.push(slot));
        prefix.lemma_filter_push(slot, keep);
        prefix.filter(keep).lemma_push_map_commute(slot_id(), slot);
        let before = prefix.filter(keep).map_values(slot_id());
        let now = all.take(n).filter(keep).map_values(slot_id());
        if keep(slot) {
            assert(now == before.push(slot.1));
            if now.contains(id) {
                let k = choose|k: int| 0 <= k < now.len() && now[k] == id;
                if k < before.len() {
                    assert(before[k] == id);
                    assert(before.contains(id));
                } else {
                    assert(list[n - 1] == id);
                }
            }
            if before.contains(id) {
                let k = choose|k: int| 0 <= k < before.len() && before[k] == id;
                assert(now[k] == id);
            }
            if list[n - 1] == id {
                assert(now[now.len() - 1] == id);
            }
        } else {
            assert(now == before);
        }
    }
}

/// What the resolver holds: an id is among the targets exactly when it is
/// not the source's own and stands in the scroll at a position that the
/// rule picks.
pub proof fn lemma_targets_membership(
    filter: TargetFilter,
    index: int,
    entity: u64,
    list: Seq<u64>,
    id: u64,
)
    ensures
        filter.targets(index, entity, list).contains(id) <==> exists|i: int|
            0 <= i < list.len() && #[trigger] list[i] == id && id != entity && filter.selects(
                index,
                i,
            ),
{
    lemma_prefix_membership(filter, index, entity, list, list.len() as int, id);
    assert(enumerate(list).take(list.len() as int) =~= enumerate(list));
}

proof fn lemma_prefix_distinct(
    filter: TargetFilter,
    index: int,
    entity: u64,
    list: Seq<u64>,
    n: int,
)
    requires
        0 <= n <= list.len(),
        list.no_duplicates(),
    ensures
        enumerate(list).take(n).filter(filter.keeps(index, entity)).map_values(
            slot_id(),
        ).no_duplicates(),
    decreases n,
{
    let keep = filter.keeps(index, entity);
    let all = enumerate(list);
    if n == 0 {
        assert(all.take(0).filter(keep) =~= Seq::<(int, u64)>::empty());
    } else {
        let prefix = all.take(n - 1);
        let slot = (n - 1, list[n - 1]);
        lemma_prefix_distinct(filter, index, entity, list, n - 1);
        lemma_prefix_membership(filter, index, entity, list, n - 1, list[n - 1]);
        assert(all.take(n) =~= prefix.push(slot));
        prefix.lemma_filter_push(slot, keep);
        prefix.filter(keep).lemma_push_map_commute(slot_id(), slot);
        let before = prefix.filter(keep).map_values(slot_id());
        if keep(slot) {
            assert(!before.contains(list[n - 1]));
            assert forall|i: int, j: int|
                0 <= i < before.len() + 1 && 0 <= j < before.len() + 1 && i != j implies before.push(
                slot.1,
            )[i] != before.push(slot.1)[j] by {
                if i == before.len() {
                    assert(before[j] != slot.1);
                } else if j == before.len() {
                    assert(before[i] != slot.1);
                }
            }
        }
    }
}

/// In a scroll that holds no id twice, no id is a target twice.
pub proof fn lemma_targets_distinct(
    filter: TargetFilter,
    index: int,
    entity: u64,
    list: Seq<u64>,
)
    requires
        list.no_duplicates(),
    ensures
        filter.targets(index, entity, list).no_duplicates(),
{
    lemma_prefix_distinct(filter, index, entity, list, list.len() as int);
    assert(enumerate(list).take(list.len() as int) =~= enumerate(list));
}

/// The item that uses an ability is never among its own targets.
pub proof fn lemma_targets_exclude_source(
    filter: TargetFilter,
    index: int,
    entity: u64,
    list: Seq<u64>,
)
    ensures
        !filter.targets(index, entity, list).contains(entity),
{
    lemma_targets_membership(filter, index, entity, list, entity);
}

/// Whatever a rule picks, `All` picks too.
pub proof fn lemma_all_picks_every_target(
    filter: TargetFilter,
    index: int,
    entity: u64,
    list: Seq<u64>,
)
    ensures
        forall|id: u64|
            filter.targets(index, entity, list).contains(id) ==> #[trigger] TargetFilter::All.targets(
                index,
                entity,
                list,
            ).contains(id),
{
    assert forall|id: u64| filter.targets(index, entity, list).contains(id) implies #[trigger]
        TargetFilter::All.targets(index, entity, list).contains(id) by {
        lemma_targets_membership(filter, index, entity, list, id);
        lemma_targets_membership(TargetFilter::All, index, entity, list, id);
        let i = choose|i: int|
            0 <= i < list.len() && #[trigger] list[i] == id && id != entity && filter.selects(
                index,
                i,
            );
        assert(list[i] == id && TargetFilter::All.selects(index, i));
    }
}

/// Where an area ability aims: a rule on positions, and a tag that a slot
/// must carry to be touched. The empty tag asks for nothing.
#[derive(Debug)]
pub struct AbilityTarget {
    pub filter: TargetFilter,
    pub attribute: String,
}

pub struct AbilityTargetView {
    pub filter: TargetFilter,
    pub attribute: Seq<char>,
}

impl View for AbilityTarget {
    type V = AbilityTargetView;

    open spec fn view(&self) -> AbilityTargetView {
        AbilityTargetView { filter: self.filter, attribute: self.attribute@ }
    }
}

impl Clone for AbilityTarget {
    fn clone(&self) -> (copy: Self)
        ensures
            copy@ == self@,
    {
        AbilityTarget { filter: self.filter, attribute: self.attribute.clone() }
    }
}

impl Default for AbilityTarget {
    fn default() -> (target: Self)
        ensures
            target@ == (AbilityTargetView {
                filter: TargetFilter::All,
                attribute: Seq::<char>::empty(),
            }),
    {
        AbilityTarget::with_all_attributes(TargetFilter::All)
    }
}

impl AbilityTarget {
    /// A target that asks for no tag.
    pub fn with_all_attributes(filter: TargetFilter) -> (target: Self)
        ensures
            target@ == (AbilityTargetView { filter, attribute: Seq::<char>::empty() }),
    {
        AbilityTarget { filter, attribute: String::new() }
    }
}

/// An ability that acts on a combatant: its base and the bonuses on it.
pub struct AbilityView {
    pub base: i32,
    pub modifier: Seq<ModifierEntry>,
}

impl AbilityView {
    pub open spec fn amount(self) -> i32 {
        ability_amount(self.base, self.modifier)
    }

    /// The ability after `source` lays a bonus of `amount` on it.
    pub open spec fn modified(self, source: u64, amount: i32) -> AbilityView {
        AbilityView { base: self.base, modifier: modifier_set(self.modifier, source, amount) }
    }

    /// The ability without any bonus.
    pub open spec fn cleared(self) -> AbilityView {
        AbilityView { base: self.base, modifier: Seq::empty() }
    }
}

/// An ability that acts on other slots of the scroll.
pub struct AreaAbilityView {
    pub base: i32,
    pub modifier: Seq<ModifierEntry>,
    pub target: AbilityTargetView,
}

impl AreaAbilityView {
    pub open spec fn amount(self) -> i32 {
        ability_amount(self.base, self.modifier)
    }

    /// The ability without any bonus.
    pub open spec fn cleared(self) -> AreaAbilityView {
        AreaAbilityView { base: self.base, modifier: Seq::empty(), target: self.target }
    }
}

/// The name of an area ability: its kind, then rule and tag in brackets.
pub open spec fn area_name(kind: Seq<char>, target: AbilityTargetView) -> Seq<char> {
    kind + " ("@ + target.filter.spec_name() + " "@ + target.attribute + ")"@
}

fn make_area_name(kind: &str, target: &AbilityTarget) -> (name: String)
    ensures
        name@ == area_name(kind@, target@),
{
    let mut name = String::from_str(kind);
    name.append(" (");
    let filter = target.filter.name();
    name.append(filter.as_str());
    name.append(" ");
    name.append(target.attribute.as_str());
    name.append(")");
    name
}

/// What every ability offers: a name, a base, the bonuses on it, and the
/// amount the two come to.
pub trait Ability {
    spec fn spec_name(&self) -> Seq<char>;

    spec fn spec_base(&self) -> i32;

    spec fn spec_modifier(&self) -> Seq<ModifierEntry>;

    fn name(&self) -> (name: String)
        ensures
            name@ == self.spec_name(),
    ;

    fn base(&self) -> (base: i32)
        ensures
            base == self.spec_base(),
    ;

    fn modifier(&self) -> (modifier: &AbilityModifier)
        ensures
            modifier@ == self.spec_modifier(),
    ;

    fn amount(&self) -> (amount: i32)
        ensures
            amount == ability_amount(self.spec_base(), self.spec_modifier()),
    {
        let base = self.base();
        self.modifier().plus(base)
    }
}

/// Hurts the enemy.
#[derive(Debug)]
pub struct Damage {
    pub base: i32,
    pub modifier: AbilityModifier,
}

impl View for Damage {
    type V = AbilityView;

    open spec fn view(&self) -> AbilityView {
        AbilityView { base: self.base, modifier: self.modifier@ }
    }
}

impl Damage {
    pub fn new(base: i32) -> (ability: Self)
        ensures
            ability@ == (AbilityView { base, modifier: Seq::empty() }),
    {
        Damage { base, modifier: AbilityModifier::new() }
    }
}

impl Ability for Damage {
    open spec fn spec_name(&self) -> Seq<char> {
        "Damage"@
    }

    open spec fn spec_base(&self) -> i32 {
        self.base
    }

    open spec fn spec_modifier(&self) -> Seq<ModifierEntry> {
        self.modifier@
    }

    fn name(&self) -> (name: String) {
        String::from_str("Damage")
    }

    fn base(&self) -> (base: i32) {
        self.base
    }

    fn modifier(&self) -> (modifier: &AbilityModifier) {
        &self.modifier
    }
}

/// Heals the player.
#[derive(Debug)]
pub struct Hearties {
    pub base: i32,
    pub modifier: AbilityModifier,
}

impl View for Hearties {
    type V = AbilityView;

    open spec fn view(&self) -> AbilityView {
        AbilityView { base: self.base, modifier: self.modifier@ }
    }
}

impl Hearties {
    pub fn new(base: i32) -> (ability: Self)
        ensures
            ability@ == (AbilityView { base, modifier: Seq::empty() }),
    {
        Hearties { base, modifier: AbilityModifier::new() }
    }
}

impl Ability for Hearties {
    open spec fn spec_name(&self) -> Seq<char> {
        "Hearties"@
    }

    open spec fn spec_base(&self) -> i32 {
        self.base
    }

    open spec fn spec_modifier(&self) -> Seq<ModifierEntry> {
        self.modifier@
    }

    fn name(&self) -> (name: String) {
        String::from_str("Hearties")
    }

    fn base(&self) -> (base: i32) {
        self.base
    }

    fn modifier(&self) -> (modifier: &AbilityModifier) {
        &self.modifier
    }
}

/// Hurts the player who uses the item.
#[derive(Debug)]
pub struct Cursed {
    pub base: i32,
    pub modifier: AbilityModifier,
}

impl View for Cursed {
    type V = AbilityView;

    open spec fn view(&self) -> AbilityView {
        AbilityView { base: self.base, modifier: self.modifier@ }
    }
}

impl Cursed {
    pub fn new(base: i32) -> (ability: Self)
        ensures
            ability@ == (AbilityView { base, modifier: Seq::empty() }),
    {
        Cursed { base, modifier: AbilityModifier::new() }
    }
}

impl Ability for Cursed {
    open spec fn spec_name(&self) -> Seq<char> {
        "Cursed"@
    }

    open spec fn spec_base(&self) -> i32 {
        self.base
    }

    open spec fn spec_modifier(&self) -> Seq<ModifierEntry> {
        self.modifier@
    }

    fn name(&self) -> (name: String) {
        String::from_str("Cursed")
    }

    fn base(&self) -> (base: i32) {
        self.base
    }

    fn modifier(&self) -> (modifier: &AbilityModifier) {
        &self.modifier
    }
}

/// Raises the damage of the slots it aims at.
#[derive(Debug)]
pub struct Heave {
    pub base: i32,
    pub modifier: AbilityModifier,
    pub target: AbilityTarget,
}

impl View for Heave {
    type V = AreaAbilityView;

    open spec fn view(&self) -> AreaAbilityView {
        AreaAbilityView { base: self.base, modifier: self.modifier@, target: self.target@ }
    }
}

impl Heave {
    pub fn new(base: i32, target: AbilityTarget) -> (ability: Self)
        ensures
            ability@ == (AreaAbilityView { base, modifier: Seq::empty(), target: target@ }),
    {
        Heave { base, modifier: AbilityModifier::new(), target }
    }
}

impl Ability for Heave {
    open spec fn spec_name(&self) -> Seq<char> {
        area_name("Heave"@, self.target@)
    }

    open spec fn spec_base(&self) -> i32 {
        self.base
    }

    open spec fn spec_modifier(&self) -> Seq<ModifierEntry> {
        self.modifier@
    }

    fn name(&self) -> (name: String) {
        make_area_name("Heave", &self.target)
    }

    fn base(&self) -> (base: i32) {
        self.base
    }

    fn modifier(&self) -> (modifier: &AbilityModifier) {
        &self.modifier
    }
}

/// Raises the sea legs of the slots it aims at.
#[derive(Debug)]
pub struct Swashbuckle {
    pub base: i32,
    pub modifier: AbilityModifier,
    pub target: AbilityTarget,
}

impl View for Swashbuckle {
    type V = AreaAbilityView;

    open spec fn view(&self) -> AreaAbilityView {
        AreaAbilityView { base: self.base, modifier: self.modifier@, target: self.target@ }
    }
}

impl Swashbuckle {
    pub fn new(base: i32, target: AbilityTarget) -> (ability: Self)
        ensures
            ability@ == (AreaAbilityView { base, modifier: Seq::empty(), target: target@ }),
    {
        Swashbuckle { base, modifier: AbilityModifier::new(), target }
    }
}

impl Ability for Swashbuckle {
    open spec fn spec_name(&self) -> Seq<char> {
        area_name("Swashbuckle"@, self.target@)
    }

    open spec fn spec_base(&self) -> i32 {
        self.base
    }

    open spec fn spec_modifier(&self) -> Seq<ModifierEntry> {
        self.modifier@
    }

    fn name(&self) -> (name: String) {
        make_area_name("Swashbuckle", &self.target)
    }

    fn base(&self) -> (base: i32) {
        self.base
    }

    fn modifier(&self) -> (modifier: &AbilityModifier) {
        &self.modifier
    }
}

/// Lowers what the enemy's blows do to the player.
#[derive(Debug)]
pub struct SeaLegs {
    pub base: i32,
    pub modifier: AbilityModifier,
}

impl View for SeaLegs {
    type V = AbilityView;

    open spec fn view(&self) -> AbilityView {
        AbilityView { base: self.base, modifier: self.modifier@ }
    }
}

impl SeaLegs {
    pub fn new(base: i32) -> (ability: Self)
        ensures
            ability@ == (AbilityView { base, modifier: Seq::empty() }),
    {
        SeaLegs { base, modifier: AbilityModifier::new() }
    }
}

impl Ability for SeaLegs {
    open spec fn spec_name(&self) -> Seq<char> {
        "Sea legs"@
    }

    open spec fn spec_base(&self) -> i32 {
        self.base
    }

    open spec fn spec_modifier(&self) -> Seq<ModifierEntry> {
        self.modifier@
    }

    fn name(&self) -> (name: String) {
        String::from_str("Sea legs")
    }

    fn base(&self) -> (base: i32) {
        self.base
    }

    fn modifier(&self) -> (modifier: &AbilityModifier) {
        &self.modifier
    }
}

/// Raises the healing of the slots it aims at.
#[derive(Debug)]
pub struct Jolly {
    pub base: i32,
    pub modifier: AbilityModifier,
    pub target: AbilityTarget,
}

impl View for Jolly {
    type V = AreaAbilityView;

    open spec fn view(&self) -> AreaAbilityView {
        AreaAbilityView { base: self.base, modifier: self.modifier@, target: self.target@ }
    }
}

impl Jolly {
    pub fn new(base: i32, target: AbilityTarget) -> (ability: Self)
        ensures
            ability@ == (AreaAbilityView { base, modifier: Seq::empty(), target: target@ }),
    {
        Jolly { base, modifier: AbilityModifier::new(), target }
    }
}

impl Ability for Jolly {
    open spec fn spec_name(&self) -> Seq<char> {
        area_name("Jolly"@, self.target@)
    }

    open spec fn spec_base(&self) -> i32 {
        self.base
    }

    open spec fn spec_modifier(&self) -> Seq<ModifierEntry> {
        self.modifier@
    }

    fn name(&self) -> (name: String) {
        make_area_name("Jolly", &self.target)
    }

    fn base(&self) -> (base: i32) {
        self.base
    }

    fn modifier(&self) -> (modifier: &AbilityModifier) {
        &self.modifier
    }
}

/// Raises the player's greatest health.
#[derive(Debug)]
pub struct Vitality {
    pub base: i32,
    pub modifier: AbilityModifier,
}

impl View for Vitality {
    type V = AbilityView;

    open spec fn view(&self) -> AbilityView {
        AbilityView { base: self.base, modifier: self.modifier@ }
    }
}

impl Vitality {
    pub fn new(base: i32) -> (ability: Self)
        ensures
            ability@ == (AbilityView { base, modifier: Seq::empty() }),
    {
        Vitality { base, modifier: AbilityModifier::new() }
    }
}

impl Ability for Vitality {
    open spec fn spec_name(&self) -> Seq<char> {
        "Vitality"@
    }

    open spec fn spec_base(&self) -> i32 {
        self.base
    }

    open spec fn spec_modifier(&self) -> Seq<ModifierEntry> {
        self.modifier@
    }

    fn name(&self) -> (name: String) {
        String::from_str("Vitality")
    }

    fn base(&self) -> (base: i32) {
        self.base
    }

    fn modifier(&self) -> (modifier: &AbilityModifier) {
        &self.modifier
    }
}

} // verus!
