use vstd::prelude::*;
use vstd::string::StringExecFns;

use crate::common::{clamp_i32, Hp, Name};
use crate::items::abilities::{
    area_name, modifier_total, Ability, AbilityView, AreaAbilityView, ModifierEntry,
};
use crate::items::attributes::{
    AmmoView, Attribute, Cannonball, Flintlock, FlintlockView, Pellets, Pointy,
};
use crate::items::{Consumable, Item, ItemView, Rarity};
use crate::text::{append_decimal, append_signed, decimal, signed_decimal};

verus! {

broadcast use vstd::seq::group_seq_axioms;

/// Whether the tooltip of an item is shown when the cursor is over it.
#[derive(Clone, Copy, Debug, PartialEq, Eq, Structural)]
pub enum Tooltipable {
    Enabled,
    Disabled,
}

impl Default for Tooltipable {
    fn default() -> (tooltipable: Self)
        ensures
            tooltipable == Tooltipable::Enabled,
    {
        Tooltipable::Enabled
    }
}

/// The part of a tooltip in which a section stands. Headers come first,
/// footers last.
#[derive(Clone, Copy, Debug, PartialEq, Eq, Structural)]
pub enum TooltipSectionIndex {
    Header,
    Body,
    Footer,
}

/// One section of a tooltip.
#[derive(Debug)]
pub struct TooltipSection {
    pub text: String,
    pub index: TooltipSectionIndex,
}

pub struct TooltipSectionView {
    pub text: Seq<char>,
    pub index: TooltipSectionIndex,
}

impl View for TooltipSection {
    type V = TooltipSectionView;

    open spec fn view(&self) -> TooltipSectionView {
        TooltipSectionView { text: self.text@, index: self.index }
    }
}

impl Clone for TooltipSection {
    fn clone(&self) -> (copy: Self)
        ensures
            copy@ == self@,
    {
        TooltipSection { text: self.text.clone(), index: self.index }
    }
}

/// The views of a list of sections.
pub open spec fn views(sections: Seq<TooltipSection>) -> Seq<TooltipSectionView> {
    sections.map_values(|section: TooltipSection| section@)
}

/// Holds of the sections that stand in the given part.
pub open spec fn stands_in(index: TooltipSectionIndex) -> spec_fn(TooltipSectionView) -> bool {
    |section: TooltipSectionView| section.index == index
}

/// The sections in the order of a tooltip: headers, then bodies, then
/// footers, each kind in the order in which it came.
pub open spec fn in_order(sections: Seq<TooltipSectionView>) -> Seq<TooltipSectionView> {
    sections.filter(stands_in(TooltipSectionIndex::Header)) + sections.filter(
        stands_in(TooltipSectionIndex::Body),
    ) + sections.filter(stands_in(TooltipSectionIndex::Footer))
}

/// What the tooltip says of an ability: its name and base, and under them
/// the bonus on it, if there is one, with its sign.
pub open spec fn ability_text(name: Seq<char>, base: i32, bonus: i32) -> Seq<char> {
    name + " "@ + signed_decimal(base as int) + if bonus > 0 {
        "\n\t+"@ + decimal(bonus as nat)
    } else if bonus < 0 {
        "\n\t"@ + signed_decimal(bonus as int)
    } else {
        Seq::empty()
    }
}

/// The section of an ability.
pub open spec fn ability_section(
    name: Seq<char>,
    base: i32,
    modifier: Seq<ModifierEntry>,
) -> TooltipSectionView {
    TooltipSectionView {
        text: ability_text(name, base, clamp_i32(modifier_total(modifier))),
        index: TooltipSectionIndex::Body,
    }
}

/// What the tooltip says of a gun: how much it holds of how much, and of
/// what.
pub open spec fn flintlock_text(gun: FlintlockView) -> Seq<char> {
    "Flintlock ("@ + decimal(gun.loaded as nat) + "/"@ + decimal(gun.capacity as nat) + " "@
        + gun.ammo + ")"@
}

/// What the tooltip says of ammunition: how much it loads, and where.
pub open spec fn ammo_text(name: Seq<char>, ammo: AmmoView) -> Seq<char> {
    name + " (Loads "@ + decimal(ammo.load_amount as nat) + " ["@ + ammo.target.filter.spec_name()
        + "] "@ + ammo.target.attribute + ")"@
}

/// What the tooltip says of the uses an item has left.
pub open spec fn consumable_text(uses: Consumable) -> Seq<char> {
    "Consumable "@ + signed_decimal(uses.0 as int)
}

/// What a health bar says: the health, a stroke, the greatest health.
pub open spec fn hp_text(hp: Hp) -> Seq<char> {
    signed_decimal(hp.current as int) + "/"@ + signed_decimal(hp.max as int)
}

/// A section in the given part.
pub open spec fn section(text: Seq<char>, index: TooltipSectionIndex) -> TooltipSectionView {
    TooltipSectionView { text, index }
}

/// Something that has a say in the tooltip of the item it belongs to.
pub trait TooltipComponent {
    spec fn spec_tooltip(&self) -> TooltipSectionView;

    fn get_tooltip_section(&self) -> (section: TooltipSection)
        ensures
            section@ == self.spec_tooltip(),
    ;
}

impl<T: Ability> TooltipComponent for T {
    open spec fn spec_tooltip(&self) -> TooltipSectionView {
        ability_section(self.spec_name(), self.spec_base(), self.spec_modifier())
    }

    fn get_tooltip_section(&self) -> (section: TooltipSection) {
        let mut text = self.name();
        text.append(" ");
        append_signed(&mut text, self.base() as i64);
        let bonus = self.modifier().amount();
        if bonus > 0 {
            text.append("\n\t+");
            append_decimal(&mut text, bonus as u64);
        } else if bonus < 0 {
            text.append("\n\t");
            append_signed(&mut text, bonus as i64);
        }
        proof {
            assert(text@ =~= ability_text(
                self.spec_name(),
                self.spec_base(),
                clamp_i32(modifier_total(self.spec_modifier())),
            ));
        }
        TooltipSection { text, index: TooltipSectionIndex::Body }
    }
}

impl TooltipComponent for Name {
    open spec fn spec_tooltip(&self) -> TooltipSectionView {
        section(self@, TooltipSectionIndex::Header)
    }

    fn get_tooltip_section(&self) -> (section: TooltipSection) {
        TooltipSection { text: self.0.clone(), index: TooltipSectionIndex::Header }
    }
}

impl TooltipComponent for Rarity {
    open spec fn spec_tooltip(&self) -> TooltipSectionView {
        section(self.spec_name(), TooltipSectionIndex::Footer)
    }

    fn get_tooltip_section(&self) -> (section: TooltipSection) {
        TooltipSection { text: self.name(), index: TooltipSectionIndex::Footer }
    }
}

impl TooltipComponent for Consumable {
    open spec fn spec_tooltip(&self) -> TooltipSectionView {
        section(consumable_text(*self), TooltipSectionIndex::Body)
    }

    fn get_tooltip_section(&self) -> (section: TooltipSection) {
        let mut text = String::from_str("Consumable ");
        append_signed(&mut text, self.0 as i64);
        TooltipSection { text, index: TooltipSectionIndex::Body }
    }
}

impl TooltipComponent for Pointy {
    open spec fn spec_tooltip(&self) -> TooltipSectionView {
        section("Pointy"@, TooltipSectionIndex::Footer)
    }

    fn get_tooltip_section(&self) -> (section: TooltipSection) {
        TooltipSection { text: String::from_str(self.name()), index: TooltipSectionIndex::Footer }
    }
}

impl TooltipComponent for Flintlock {
    open spec fn spec_tooltip(&self) -> TooltipSectionView {
        section(flintlock_text(self@), TooltipSectionIndex::Footer)
    }

    fn get_tooltip_section(&self) -> (section: TooltipSection) {
        let mut text = String::from_str(self.name());
        text.append(" (");
        append_decimal(&mut text, self.loaded() as u64);
        text.append("/");
        append_decimal(&mut text, self.capacity() as u64);
        text.append(" ");
        text.append(self.ammo().as_str());
        text.append(")");
        proof {
            reveal_strlit("Flintlock");
            reveal_strlit(" (");
            reveal_strlit("Flintlock (");
            assert("Flintlock"@ + " ("@ =~= "Flintlock ("@);
            assert(text@ =~= flintlock_text(self@));
        }
        TooltipSection { text, index: TooltipSectionIndex::Footer }
    }
}

fn write_ammo_text(name: &str, load_amount: usize, target: &crate::items::abilities::AbilityTarget) -> (text:
    String)
    ensures
        text@ == ammo_text(name@, AmmoView { load_amount, target: target@ }),
{
    let mut text = String::from_str(name);
    text.append(" (Loads ");
    append_decimal(&mut text, load_amount as u64);
    text.append(" [");
    let filter = target.filter.name();
    text.append(filter.as_str());
    text.append("] ");
    text.append(target.attribute.as_str());
    text.append(")");
    proof {
        assert(text@ =~= ammo_text(name@, AmmoView { load_amount, target: target@ }));
    }
    text
}

impl TooltipComponent for Pellets {
    open spec fn spec_tooltip(&self) -> TooltipSectionView {
        section(ammo_text("Pellets"@, self@), TooltipSectionIndex::Footer)
    }

    fn get_tooltip_section(&self) -> (section: TooltipSection) {
        TooltipSection {
            text: write_ammo_text(self.name(), self.load_amount, &self.target),
            index: TooltipSectionIndex::Footer,
        }
    }
}

impl TooltipComponent for Cannonball {
    open spec fn spec_tooltip(&self) -> TooltipSectionView {
        section(ammo_text("Pellets"@, self@), TooltipSectionIndex::Footer)
    }

    fn get_tooltip_section(&self) -> (section: TooltipSection) {
        TooltipSection {
            text: write_ammo_text(self.name(), self.load_amount, &self.target),
            index: TooltipSectionIndex::Footer,
        }
    }
}

/// What a health bar says of `hp`.
pub fn hp_label(hp: &Hp) -> (text: String)
    ensures
        text@ == hp_text(*hp),
{
    let mut text = String::new();
    append_signed(&mut text, hp.current as i64);
    text.append("/");
    append_signed(&mut text, hp.max as i64);
    proof {
        assert(text@ =~= hp_text(*hp));
    }
    text
}

fn gather(sections: &Vec<TooltipSection>, index: TooltipSectionIndex, out: &mut Vec<TooltipSection>)
    ensures
        views(final(out)@) == views(old(out)@) + views(sections@).filter(stands_in(index)),
{
    let ghost keep = stands_in(index);
    let ghost all = views(sections@);
    let mut i: usize = 0;
    while i < sections.len()
        invariant
            i <= sections.len(),
            keep == stands_in(index),
            all == views(sections@),
            views(out@) == views(old(out)@) + all.take(i as int).filter(keep),
        decreases sections.len() - i,
    {
        let ghost before = views(out@);
        proof {
            assert(all.take(i + 1) =~= all.take(i as int).push(sections@[i as int]@));
            all.take(i as int).lemma_filter_push(sections@[i as int]@, keep);
        }
        if sections[i].index == index {
            out.push(sections[i].clone());
            assert(views(out@) =~= before.push(sections@[i as int]@));
        }
        assert(views(out@) =~= views(old(out)@) + all.take(i + 1).filter(keep));
        i += 1;
    }
    proof {
        assert(all.take(sections.len() as int) =~= all);
    }
}

/// Puts the sections in the order of a tooltip: headers, then bodies, then
/// footers, each kind in the order in which it came.
pub fn sort_sections(sections: &Vec<TooltipSection>) -> (sorted: Vec<TooltipSection>)
    ensures
        views(sorted@) == in_order(views(sections@)),
{
    let mut sorted: Vec<TooltipSection> = Vec::new();
    assert(views(sorted@) =~= Seq::<TooltipSectionView>::empty());
    gather(sections, TooltipSectionIndex::Header, &mut sorted);
    gather(sections, TooltipSectionIndex::Body, &mut sorted);
    gather(sections, TooltipSectionIndex::Footer, &mut sorted);
    assert(views(sorted@) =~= in_order(views(sections@)));
    sorted
}

/// The section of something that an item may or may not carry.
pub open spec fn said(section: Option<TooltipSectionView>) -> Seq<TooltipSectionView> {
    match section {
        Some(s) => seq![s],
        None => Seq::empty(),
    }
}

/// The section of a plain ability, if the item has it.
pub open spec fn plain_said(name: Seq<char>, ability: Option<AbilityView>) -> Seq<
    TooltipSectionView,
> {
    match ability {
        Some(a) => seq![ability_section(name, a.base, a.modifier)],
        None => Seq::empty(),
    }
}

/// The section of an area ability, if the item has it.
pub open spec fn area_said(kind: Seq<char>, ability: Option<AreaAbilityView>) -> Seq<
    TooltipSectionView,
> {
    match ability {
        Some(a) => seq![ability_section(area_name(kind, a.target), a.base, a.modifier)],
        None => Seq::empty(),
    }
}

/// What the abilities of an item say, ability by ability.
pub open spec fn ability_sections(item: ItemView) -> Seq<TooltipSectionView> {
    Seq::empty() + plain_said("Damage"@, item.damage) + plain_said("Hearties"@, item.hearties) + plain_said(
        "Cursed"@,
        item.cursed,
    ) + area_said("Heave"@, item.heave) + plain_said("Sea legs"@, item.sea_legs) + area_said(
        "Swashbuckle"@,
        item.swashbuckle,
    ) + area_said("Jolly"@, item.jolly) + plain_said("Vitality"@, item.vitality)
}

/// What the tags of an item say, tag by tag.
pub open spec fn tag_sections(item: ItemView) -> Seq<TooltipSectionView> {
    Seq::empty() + said(
        if item.pointy {
            Some(section("Pointy"@, TooltipSectionIndex::Footer))
        } else {
            None
        },
    ) + said(
        match item.flintlock {
            Some(gun) => Some(section(flintlock_text(gun), TooltipSectionIndex::Footer)),
            None => None,
        },
    ) + said(
        match item.pellets {
            Some(ammo) => Some(section(ammo_text("Pellets"@, ammo), TooltipSectionIndex::Footer)),
            None => None,
        },
    ) + said(
        match item.cannonball {
            Some(ammo) => Some(section(ammo_text("Pellets"@, ammo), TooltipSectionIndex::Footer)),
            None => None,
        },
    )
}

/// What the rest of an item says: its name, its rarity, and the uses it
/// has left.
pub open spec fn other_sections(item: ItemView) -> Seq<TooltipSectionView> {
    Seq::empty().push(section(item.name, TooltipSectionIndex::Header)).push(
        section(item.rarity.spec_name(), TooltipSectionIndex::Footer),
    ) + said(
        match item.consumable {
            Some(uses) => Some(section(consumable_text(uses), TooltipSectionIndex::Body)),
            None => None,
        },
    )
}

/// All that an item's parts say, part by part.
pub open spec fn item_sections(item: ItemView) -> Seq<TooltipSectionView> {
    ability_sections(item) + tag_sections(item) + other_sections(item)
}

fn say<T: TooltipComponent>(part: &Option<T>, out: &mut Vec<TooltipSection>)
    ensures
        views(final(out)@) == views(old(out)@) + said(
            match *part {
                Some(p) => Some(p.spec_tooltip()),
                None => None,
            },
        ),
{
    let ghost before = views(out@);
    match part {
        Some(p) => {
            let section = p.get_tooltip_section();
            out.push(section);
            assert(views(out@) =~= before + seq![p.spec_tooltip()]);
        },
        None => {
            assert(views(out@) =~= before + Seq::<TooltipSectionView>::empty());
        },
    }
}

fn say_abilities(item: &Item) -> (out: Vec<TooltipSection>)
    ensures
        views(out@) == ability_sections(item@),
{
    let mut out: Vec<TooltipSection> = Vec::new();
    assert(views(out@) =~= Seq::<TooltipSectionView>::empty());
    say(&item.damage, &mut out);
    say(&item.hearties, &mut out);
    say(&item.cursed, &mut out);
    say(&item.heave, &mut out);
    say(&item.sea_legs, &mut out);
    say(&item.swashbuckle, &mut out);
    say(&item.jolly, &mut out);
    say(&item.vitality, &mut out);
    out
}

fn say_tags(item: &Item) -> (out: Vec<TooltipSection>)
    ensures
        views(out@) == tag_sections(item@),
{
    let mut out: Vec<TooltipSection> = Vec::new();
    assert(views(out@) =~= Seq::<TooltipSectionView>::empty());
    say(&item.pointy, &mut out);
    say(&item.flintlock, &mut out);
    say(&item.pellets, &mut out);
    say(&item.cannonball, &mut out);
    out
}

fn say_others(item: &Item) -> (out: Vec<TooltipSection>)
    ensures
        views(out@) == other_sections(item@),
{
    let mut out: Vec<TooltipSection> = Vec::new();
    out.push(item.name.get_tooltip_section());
    out.push(item.rarity.get_tooltip_section());
    assert(views(out@) =~= Seq::<TooltipSectionView>::empty().push(
        section(item@.name, TooltipSectionIndex::Header),
    ).push(section(item@.rarity.spec_name(), TooltipSectionIndex::Footer)));
    say(&item.consumable, &mut out);
    out
}

/// All that an item's parts say, part by part.
pub fn gather_sections(item: &Item) -> (sections: Vec<TooltipSection>)
    ensures
        views(sections@) == item_sections(item@),
{
    let mut sections = say_abilities(item);
    let mut tags = say_tags(item);
    let mut others = say_others(item);
    let ghost first = sections@;
    let ghost second = tags@;
    let ghost third = others@;
    sections.append(&mut tags);
    sections.append(&mut others);
    assert(views(first + second + third) =~= views(first) + views(second) + views(third));
    sections
}

/// The tooltip of an item: all that its parts say, in the order of a
/// tooltip.
pub fn item_tooltip(item: &Item) -> (tooltip: Vec<TooltipSection>)
    ensures
        views(tooltip@) == in_order(item_sections(item@)),
{
    let sections = gather_sections(item);
    sort_sections(&sections)
}

} // verus!
