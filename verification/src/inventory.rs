use vstd::prelude::*;

use crate::items::abilities::{lemma_targets_distinct, TargetFilter};
use crate::items::{Effect, EffectView, Item, ItemView};

verus! {

broadcast use {vstd::seq_lib::group_seq_properties, vstd::seq::group_seq_axioms};

/// How many items the player's scroll takes.
pub const INVENTORY_SCROLL_SIZE: usize = 12;

/// How many items the scroll of loot takes.
pub const LOOT_SCROLL_SIZE: usize = 5;

/// The ids of a scroll's items, slot by slot.
pub open spec fn scroll_ids(scroll: Seq<ItemView>) -> Seq<u64> {
    scroll.map_values(|item: ItemView| item.id)
}

/// A scroll is in order when no id stands in it twice and every item is.
pub open spec fn scroll_wf(scroll: Seq<ItemView>) -> bool {
    &&& scroll_ids(scroll).no_duplicates()
    &&& forall|i: int| 0 <= i < scroll.len() ==> (#[trigger] scroll[i]).wf()
}

/// Whether the item `id` stands in the scroll.
pub open spec fn holds(scroll: Seq<ItemView>, id: u64) -> bool {
    exists|i: int| 0 <= i < scroll.len() && (#[trigger] scroll[i]).id == id
}

/// Whether `i` is the first slot that holds the item `id`.
pub open spec fn is_first(scroll: Seq<ItemView>, id: u64, i: int) -> bool {
    &&& 0 <= i < scroll.len()
    &&& scroll[i].id == id
    &&& forall|j: int| 0 <= j < i ==> (#[trigger] scroll[j]).id != id
}

/// The slot of the item `id`, if it stands in the scroll.
pub open spec fn position(scroll: Seq<ItemView>, id: u64) -> Option<int> {
    if exists|i: int| is_first(scroll, id, i) {
        Some(choose|i: int| is_first(scroll, id, i))
    } else {
        None
    }
}

/// An index as the specification counts it.
pub open spec fn as_int(index: Option<usize>) -> Option<int> {
    match index {
        Some(i) => Some(i as int),
        None => None,
    }
}

/// The scroll after an area ability has been used by the item `source` at
/// slot `index`: every slot among the targets of `filter` takes the
/// effect, every other slot stays as it is.
pub open spec fn aimed(
    scroll: Seq<ItemView>,
    filter: TargetFilter,
    index: int,
    source: u64,
    effect: EffectView,
) -> Seq<ItemView> {
    Seq::new(
        scroll.len(),
        |j: int|
            if filter.targets(index, source, scroll_ids(scroll)).contains(scroll[j].id) {
                scroll[j].affected(effect)
            } else {
                scroll[j]
            },
    )
}

/// The scroll with every bonus taken off every ability.
pub open spec fn all_cleared(scroll: Seq<ItemView>) -> Seq<ItemView> {
    scroll.map_values(|item: ItemView| item.cleared())
}

/// The first slot of an id is the only one that is first.
pub proof fn lemma_position_is(scroll: Seq<ItemView>, id: u64, i: int)
    requires
        is_first(scroll, id, i),
    ensures
        position(scroll, id) == Some(i),
{
    let c = choose|c: int| is_first(scroll, id, c);
    if c < i {
        assert(scroll[c].id != id);
    } else if i < c {
        assert(scroll[i].id != id);
    }
}

/// An id that no slot holds has no position.
pub proof fn lemma_position_none(scroll: Seq<ItemView>, id: u64)
    requires
        !holds(scroll, id),
    ensures
        position(scroll, id) is None,
{
    if exists|i: int| is_first(scroll, id, i) {
        let c = choose|c: int| is_first(scroll, id, c);
        assert(scroll[c].id == id);
    }
}

/// An ordered list of items: the player's inventory, or the loot on offer.
#[derive(Debug)]
pub struct Scroll {
    pub items: Vec<Item>,
}

impl View for Scroll {
    type V = Seq<ItemView>;

    open spec fn view(&self) -> Seq<ItemView> {
        self.items@.map_values(|item: Item| item@)
    }
}

impl Scroll {
    /// A scroll without items.
    pub fn new() -> (scroll: Self)
        ensures
            scroll@ == Seq::<ItemView>::empty(),
            scroll_wf(scroll@),
    {
        let scroll = Scroll { items: Vec::new() };
        assert(scroll@ =~= Seq::<ItemView>::empty());
        scroll
    }

    pub fn len(&self) -> (len: usize)
        ensures
            len == self@.len(),
    {
        self.items.len()
    }

    /// The item in slot `index`, if there is such a slot.
    pub fn get(&self, index: usize) -> (item: Option<&Item>)
        ensures
            match item {
                Some(found) => index < self@.len() && found@ == self@[index as int],
                None => index >= self@.len(),
            },
    {
        if index < self.items.len() {
            Some(&self.items[index])
        } else {
            None
        }
    }

    /// Whether the scroll is in order.
    pub fn in_order(&self) -> (ok: bool)
        ensures
            ok == scroll_wf(self@),
    {
        let ghost ids = scroll_ids(self@);
        let mut i: usize = 0;
        while i < self.items.len()
            invariant
                i <= self.items.len(),
                ids == scroll_ids(self@),
                forall|a: int, b: int| 0 <= a < b < i ==> ids[a] != ids[b],
                forall|a: int| 0 <= a < i ==> (#[trigger] self@[a]).wf(),
            decreases self.items.len() - i,
        {
            if !self.items[i].in_order() {
                assert(!self@[i as int].wf());
                return false;
            }
            let id = self.items[i].id;
            let mut j: usize = 0;
            while j < i
                invariant
                    j <= i < self.items.len(),
                    ids == scroll_ids(self@),
                    id == ids[i as int],
                    forall|a: int| 0 <= a < j ==> ids[a] != id,
                decreases i - j,
            {
                if self.items[j].id == id {
                    assert(ids[j as int] == ids[i as int]);
                    return false;
                }
                j += 1;
            }
            i += 1;
        }
        true
    }

    /// The ids of the items, slot by slot.
    pub fn ids(&self) -> (ids: Vec<u64>)
        ensures
            ids@ == scroll_ids(self@),
    {
        let mut ids: Vec<u64> = Vec::new();
        let mut i: usize = 0;
        while i < self.items.len()
            invariant
                i <= self.items.len(),
                ids@ == scroll_ids(self@).take(i as int),
            decreases self.items.len() - i,
        {
            ids.push(self.items[i].id);
            assert(ids@ =~= scroll_ids(self@).take(i + 1));
            i += 1;
        }
        assert(ids@ =~= scroll_ids(self@));
        ids
    }

    /// The slot of the item `id`, if it stands in the scroll.
    pub fn position(&self, id: u64) -> (found: Option<usize>)
        ensures
            as_int(found) == position(self@, id),
            found matches Some(i) ==> i < self@.len() && self@[i as int].id == id,
            found is None ==> !holds(self@, id),
    {
        let mut i: usize = 0;
        while i < self.items.len()
            invariant
                i <= self.items.len(),
                forall|j: int| 0 <= j < i ==> (#[trigger] self@[j]).id != id,
            decreases self.items.len() - i,
        {
            if self.items[i].id == id {
                proof {
                    assert(self@[i as int].id == id);
                    lemma_position_is(self@, id, i as int);
                }
                return Some(i);
            }
            i += 1;
        }
        proof {
            lemma_position_none(self@, id);
        }
        None
    }

    /// Whether the item `id` stands in the scroll.
    pub fn contains(&self, id: u64) -> (found: bool)
        ensures
            found == holds(self@, id),
    {
        match self.position(id) {
            Some(i) => {
                assert(self@[i as int].id == id);
                true
            },
            None => false,
        }
    }

    /// Puts `item` in at slot `index`; the items from there on move one slot
    /// along. An index past the end, or an id that the scroll holds
    /// already, is refused: the item comes back and the scroll stays.
    pub fn insert_at(&mut self, index: usize, item: Item) -> (done: Result<(), Item>)
        ensures
            match done {
                Ok(_) => {
                    &&& index <= old(self)@.len()
                    &&& !holds(old(self)@, item.id)
                    &&& final(self)@ == old(self)@.insert(index as int, item@)
                },
                Err(back) => {
                    &&& index > old(self)@.len() || holds(old(self)@, item.id)
                    &&& back == item
                    &&& final(self)@ == old(self)@
                },
            },
            scroll_wf(old(self)@) && item@.wf() ==> scroll_wf(final(self)@),
    {
        if index > self.items.len() || self.contains(item.id) {
            return Err(item);
        }
        let ghost before = self@;
        let ghost added = item@;
        self.items.insert(index, item);
        proof {
            assert(self@ =~= before.insert(index as int, added));
            lemma_insert_keeps_order(before, index as int, added);
        }
        Ok(())
    }

    /// Takes the item `id` out; the items behind it move one slot up.
    pub fn remove(&mut self, id: u64) -> (taken: Option<Item>)
        ensures
            match position(old(self)@, id) {
                Some(i) => {
                    &&& taken matches Some(item)
                    &&& item@ == old(self)@[i]
                    &&& final(self)@ == old(self)@.remove(i)
                },
                None => taken is None && final(self)@ == old(self)@,
            },
            !holds(old(self)@, id) <==> taken is None,
            scroll_wf(old(self)@) ==> scroll_wf(final(self)@) && !holds(final(self)@, id),
    {
        match self.position(id) {
            Some(i) => {
                let ghost before = self@;
                let item = self.items.remove(i);
                proof {
                    assert(self@ =~= before.remove(i as int));
                    assert(before[i as int].id == id);
                    lemma_remove_keeps_order(before, i as int);
                }
                Some(item)
            },
            None => None,
        }
    }

    /// Moves the item `id` to slot `new_index`, counted once it is taken
    /// out. Nothing happens where the scroll does not hold the item or has
    /// no such slot.
    pub fn move_to(&mut self, id: u64, new_index: usize) -> (moved: bool)
        ensures
            match position(old(self)@, id) {
                Some(i) if new_index < old(self)@.len() => moved && final(self)@ == old(
                    self,
                )@.remove(i).insert(new_index as int, old(self)@[i]),
                _ => !moved && final(self)@ == old(self)@,
            },
            scroll_wf(old(self)@) ==> scroll_wf(final(self)@),
    {
        if new_index >= self.items.len() {
            return false;
        }
        match self.position(id) {
            Some(i) => {
                let ghost before = self@;
                let item = self.items.remove(i);
                proof {
                    assert(self@ =~= before.remove(i as int));
                    lemma_remove_keeps_order(before, i as int);
                }
                let ghost between = self@;
                let ghost moved_item = item@;
                self.items.insert(new_index, item);
                proof {
                    assert(self@ =~= between.insert(new_index as int, moved_item));
                    if scroll_wf(before) {
                        assert(!holds(between, moved_item.id));
                        lemma_insert_keeps_order(between, new_index as int, moved_item);
                    }
                }
                true
            },
            None => false,
        }
    }

    /// Lets the item `source`, which stands in slot `index`, use an area
    /// ability: the targets of `filter` are resolved, and each takes
    /// `effect`.
    pub fn aim(&mut self, filter: TargetFilter, index: usize, source: u64, effect: &Effect)
        requires
            scroll_wf(old(self)@),
        ensures
            final(self)@ == aimed(old(self)@, filter, index as int, source, effect@),
            scroll_wf(final(self)@),
            scroll_ids(final(self)@) == scroll_ids(old(self)@),
    {
        let ids = self.ids();
        let targets = filter.get_targets(index, source, ids.as_slice());
        proof {
            lemma_targets_distinct(filter, index as int, source, scroll_ids(self@));
        }
        let mut k: usize = 0;
        while k < targets.len()
            invariant
                k <= targets.len(),
                targets@ == filter.targets(index as int, source, scroll_ids(old(self)@)),
                targets@.no_duplicates(),
                scroll_wf(old(self)@),
                self@.len() == old(self)@.len(),
                forall|j: int| 0 <= j < self@.len() ==> (#[trigger] self@[j]).wf(),
                forall|j: int|
                    0 <= j < self@.len() ==> #[trigger] self@[j] == if targets@.take(
                        k as int,
                    ).contains(old(self)@[j].id) {
                        old(self)@[j].affected(effect@)
                    } else {
                        old(self)@[j]
                    },
            decreases targets.len() - k,
        {
            let target = targets[k];
            let ghost before = self@;
            let ghost done = targets@.take(k as int);
            proof {
                assert(targets@.take(k + 1) =~= done.push(target));
                assert(!done.contains(target));
                assert forall|j: int| 0 <= j < before.len() implies (#[trigger] before[j]).id
                    == old(self)@[j].id by {}
            }
            match self.position(target) {
                Some(slot) => {
                    self.items[slot].receive(effect);
                    proof {
                        assert(self@.len() == before.len());
                        assert(self@[slot as int] == before[slot as int].affected(effect@));
                        assert(before[slot as int] == old(self)@[slot as int]);
                        assert forall|j: int| 0 <= j < self@.len() implies #[trigger] self@[j]
                            == if targets@.take(k + 1).contains(old(self)@[j].id) {
                            old(self)@[j].affected(effect@)
                        } else {
                            old(self)@[j]
                        } by {
                            if j == slot {
                                assert(done.push(target)[k as int] == target);
                            } else {
                                assert(self@[j] == before[j]);
                                assert(scroll_ids(old(self)@)[j] != scroll_ids(old(self)@)[slot as int]);
                                assert(old(self)@[j].id != target);
                                if done.push(target).contains(old(self)@[j].id) {
                                    assert(done.contains(old(self)@[j].id));
                                }
                                if done.contains(old(self)@[j].id) {
                                    let w = choose|w: int|
                                        0 <= w < done.len() && done[w] == old(self)@[j].id;
                                    assert(done.push(target)[w] == old(self)@[j].id);
                                }
                            }
                        }
                        assert forall|j: int| 0 <= j < self@.len() implies (#[trigger] self@[j]).wf() by {
                            if j != slot {
                                assert(self@[j] == before[j]);
                            }
                        }
                    }
                },
                None => {
                    proof {
                        assert forall|j: int| 0 <= j < self@.len() implies #[trigger] self@[j]
                            == if targets@.take(k + 1).contains(old(self)@[j].id) {
                            old(self)@[j].affected(effect@)
                        } else {
                            old(self)@[j]
                        } by {
                            assert(before[j].id != target);
                            if done.push(target).contains(old(self)@[j].id) {
                                assert(done.contains(old(self)@[j].id));
                            }
                            if done.contains(old(self)@[j].id) {
                                let w = choose|w: int|
                                    0 <= w < done.len() && done[w] == old(self)@[j].id;
                                assert(done.push(target)[w] == old(self)@[j].id);
                            }
                        }
                    }
                },
            }
            k += 1;
        }
        proof {
            assert(targets@.take(targets.len() as int) =~= targets@);
            assert(self@ =~= aimed(old(self)@, filter, index as int, source, effect@));
            assert(scroll_ids(self@) =~= scroll_ids(old(self)@));
        }
    }

    /// Takes every bonus off every ability in the scroll.
    pub fn clear_modifiers(&mut self)
        ensures
            final(self)@ == all_cleared(old(self)@),
            scroll_wf(old(self)@) ==> scroll_wf(final(self)@),
    {
        let mut i: usize = 0;
        while i < self.items.len()
            invariant
                i <= self.items.len(),
                self@.len() == old(self)@.len(),
                forall|j: int| 0 <= j < i ==> self@[j] == (#[trigger] old(self)@[j]).cleared(),
                forall|j: int| i <= j < self@.len() ==> self@[j] == #[trigger] old(self)@[j],
            decreases self.items.len() - i,
        {
            self.items[i].clear_modifiers();
            i += 1;
        }
        assert(self@ =~= all_cleared(old(self)@));
        proof {
            lemma_cleared_keeps_order(old(self)@);
        }
    }
}

/// Putting in an item under a new id keeps a scroll in order.
pub proof fn lemma_insert_keeps_order(scroll: Seq<ItemView>, index: int, item: ItemView)
    requires
        0 <= index <= scroll.len(),
        !holds(scroll, item.id),
    ensures
        scroll_wf(scroll) && item.wf() ==> scroll_wf(scroll.insert(index, item)),
{
    if scroll_wf(scroll) && item.wf() {
        let after = scroll.insert(index, item);
        let ids = scroll_ids(scroll);
        let after_ids = scroll_ids(after);
        assert forall|i: int, j: int|
            0 <= i < after_ids.len() && 0 <= j < after_ids.len() && i != j implies after_ids[i]
            != after_ids[j] by {
            let a = if i < index {
                i
            } else {
                i - 1
            };
            let b = if j < index {
                j
            } else {
                j - 1
            };
            if i == index {
                assert(scroll[b].id == ids[b]);
            } else if j == index {
                assert(scroll[a].id == ids[a]);
            } else {
                assert(ids[a] != ids[b]);
            }
        }
        assert forall|i: int| 0 <= i < after.len() implies (#[trigger] after[i]).wf() by {
            if i < index {
                assert(after[i] == scroll[i]);
            } else if i > index {
                assert(after[i] == scroll[i - 1]);
            }
        }
    }
}

/// Taking an item out keeps a scroll in order, and leaves no slot with its
/// id.
pub proof fn lemma_remove_keeps_order(scroll: Seq<ItemView>, index: int)
    requires
        0 <= index < scroll.len(),
    ensures
        scroll_wf(scroll) ==> scroll_wf(scroll.remove(index)) && !holds(
            scroll.remove(index),
            scroll[index].id,
        ),
{
    if scroll_wf(scroll) {
        let after = scroll.remove(index);
        let ids = scroll_ids(scroll);
        let after_ids = scroll_ids(after);
        assert forall|i: int, j: int|
            0 <= i < after_ids.len() && 0 <= j < after_ids.len() && i != j implies after_ids[i]
            != after_ids[j] by {
            let a = if i < index {
                i
            } else {
                i + 1
            };
            let b = if j < index {
                j
            } else {
                j + 1
            };
            assert(ids[a] != ids[b]);
        }
        assert forall|i: int| 0 <= i < after.len() implies (#[trigger] after[i]).wf() by {
            if i < index {
                assert(after[i] == scroll[i]);
            } else {
                assert(after[i] == scroll[i + 1]);
            }
        }
        assert forall|i: int| 0 <= i < after.len() implies (#[trigger] after[i]).id
            != scroll[index].id by {
            let a = if i < index {
                i
            } else {
                i + 1
            };
            assert(ids[a] != ids[index]);
        }
    }
}

/// One of the two scrolls that an item can be dragged between.
#[derive(Clone, Copy, Debug, PartialEq, Eq, Structural)]
pub enum ScrollKind {
    Inventory,
    Loot,
}

impl ScrollKind {
    /// How many items the scroll takes.
    pub open spec fn spec_size(self) -> usize {
        match self {
            ScrollKind::Inventory => INVENTORY_SCROLL_SIZE,
            ScrollKind::Loot => LOOT_SCROLL_SIZE,
        }
    }

    pub fn size(&self) -> (size: usize)
        ensures
            size == self.spec_size(),
    {
        match self {
            ScrollKind::Inventory => INVENTORY_SCROLL_SIZE,
            ScrollKind::Loot => LOOT_SCROLL_SIZE,
        }
    }
}

/// An item in the player's hand, with the slot it was taken from.
#[derive(Debug)]
pub struct Dragging {
    pub item: Item,
    pub last_parent: ScrollKind,
    pub last_index: usize,
}

pub struct DraggingView {
    pub item: ItemView,
    pub last_parent: ScrollKind,
    pub last_index: usize,
}

impl View for Dragging {
    type V = DraggingView;

    open spec fn view(&self) -> DraggingView {
        DraggingView {
            item: self.item@,
            last_parent: self.last_parent,
            last_index: self.last_index,
        }
    }
}

/// The player's scroll, the loot on offer, and the item in the player's
/// hand, if any.
#[derive(Debug)]
pub struct Inventory {
    pub scroll: Scroll,
    pub loot: Scroll,
    pub dragging: Option<Dragging>,
}

pub struct InventoryView {
    pub scroll: Seq<ItemView>,
    pub loot: Seq<ItemView>,
    pub dragging: Option<DraggingView>,
}

impl View for Inventory {
    type V = InventoryView;

    open spec fn view(&self) -> InventoryView {
        InventoryView {
            scroll: self.scroll@,
            loot: self.loot@,
            dragging: match self.dragging {
                Some(d) => Some(d@),
                None => None,
            },
        }
    }
}

impl InventoryView {
    /// The inventory is in order: both scrolls are, and so is the item in
    /// the player's hand.
    pub open spec fn wf(self) -> bool {
        &&& scroll_wf(self.scroll)
        &&& scroll_wf(self.loot)
        &&& self.dragging matches Some(held) ==> held.item.wf()
    }

    /// The scroll of the given kind.
    pub open spec fn of(self, kind: ScrollKind) -> Seq<ItemView> {
        match kind {
            ScrollKind::Inventory => self.scroll,
            ScrollKind::Loot => self.loot,
        }
    }

    /// The inventory with `items` as the scroll of the given kind, and
    /// with `dragging` in the player's hand.
    pub open spec fn with(
        self,
        kind: ScrollKind,
        items: Seq<ItemView>,
        dragging: Option<DraggingView>,
    ) -> InventoryView {
        match kind {
            ScrollKind::Inventory => InventoryView { scroll: items, loot: self.loot, dragging },
            ScrollKind::Loot => InventoryView { scroll: self.scroll, loot: items, dragging },
        }
    }

    /// The inventory after the player has picked up the item `id`: it
    /// leaves its scroll for the player's hand. Nothing happens while the
    /// hand is full, or where neither scroll holds the item. The player's
    /// own scroll is looked through first.
    pub open spec fn picked_up(self, id: u64) -> InventoryView {
        if self.dragging is Some {
            self
        } else if let Some(slot) = position(self.scroll, id) {
            self.with(
                ScrollKind::Inventory,
                self.scroll.remove(slot),
                Some(
                    DraggingView {
                        item: self.scroll[slot],
                        last_parent: ScrollKind::Inventory,
                        last_index: slot as usize,
                    },
                ),
            )
        } else if let Some(slot) = position(self.loot, id) {
            self.with(
                ScrollKind::Loot,
                self.loot.remove(slot),
                Some(
                    DraggingView {
                        item: self.loot[slot],
                        last_parent: ScrollKind::Loot,
                        last_index: slot as usize,
                    },
                ),
            )
        } else {
            self
        }
    }

    /// Where an item that is let go lands: in the scroll under the cursor
    /// if that scroll has room, at the slot asked for or at its end; else
    /// back where it came from.
    pub open spec fn landing(self, over: Option<(ScrollKind, usize)>) -> (ScrollKind, usize) {
        let held = self.dragging->0;
        match over {
            Some((kind, wanted)) if self.of(kind).len() < kind.spec_size() => (
                kind,
                if wanted < self.of(kind).len() {
                    wanted
                } else {
                    self.of(kind).len() as usize
                },
            ),
            _ => (held.last_parent, held.last_index),
        }
    }

    /// Whether an item that is let go can land: its landing slot exists,
    /// and the scroll there does not hold its id already.
    pub open spec fn can_land(self, over: Option<(ScrollKind, usize)>) -> bool {
        &&& self.dragging is Some
        &&& self.landing(over).1 <= self.of(self.landing(over).0).len()
        &&& !holds(self.of(self.landing(over).0), self.dragging->0.item.id)
    }

    /// The inventory after the player has let go: the item in hand lands,
    /// if it can.
    pub open spec fn let_go(self, over: Option<(ScrollKind, usize)>) -> InventoryView {
        if self.can_land(over) {
            let (kind, slot) = self.landing(over);
            self.with(kind, self.of(kind).insert(slot as int, self.dragging->0.item), None)
        } else {
            self
        }
    }
}

impl Inventory {
    /// An inventory with two empty scrolls and an empty hand.
    pub fn new() -> (inventory: Self)
        ensures
            inventory@ == (InventoryView {
                scroll: Seq::empty(),
                loot: Seq::empty(),
                dragging: None,
            }),
    {
        Inventory { scroll: Scroll::new(), loot: Scroll::new(), dragging: None }
    }

    /// Whether the inventory is in order.
    pub fn in_order(&self) -> (ok: bool)
        ensures
            ok == self@.wf(),
    {
        let held = match &self.dragging {
            Some(held) => held.item.in_order(),
            None => true,
        };
        held && self.scroll.in_order() && self.loot.in_order()
    }

    /// The player picks up the item `id`.
    pub fn start_dragging(&mut self, id: u64) -> (picked: bool)
        ensures
            final(self)@ == old(self)@.picked_up(id),
            old(self)@.wf() ==> final(self)@.wf(),
            picked == (old(self)@.dragging is None && (holds(old(self)@.scroll, id) || holds(
                old(self)@.loot,
                id,
            ))),
    {
        if self.dragging.is_some() {
            return false;
        }
        match self.scroll.position(id) {
            Some(slot) => {
                let ghost before = self.scroll@;
                let item = self.scroll.items.remove(slot);
                assert(self.scroll@ =~= before.remove(slot as int));
                assert(before[slot as int].id == id);
                proof {
                    lemma_remove_keeps_order(before, slot as int);
                }
                self.dragging = Some(
                    Dragging { item, last_parent: ScrollKind::Inventory, last_index: slot },
                );
                return true;
            },
            None => {},
        }
        match self.loot.position(id) {
            Some(slot) => {
                let ghost before = self.loot@;
                let item = self.loot.items.remove(slot);
                assert(self.loot@ =~= before.remove(slot as int));
                assert(before[slot as int].id == id);
                proof {
                    lemma_remove_keeps_order(before, slot as int);
                }
                self.dragging = Some(
                    Dragging { item, last_parent: ScrollKind::Loot, last_index: slot },
                );
                true
            },
            None => false,
        }
    }

    /// The player lets go of the item in hand. `over` is the scroll under
    /// the cursor and the slot the cursor points at, if it is over one.
    pub fn stop_dragging(&mut self, over: Option<(ScrollKind, usize)>) -> (dropped: bool)
        ensures
            final(self)@ == old(self)@.let_go(over),
            old(self)@.wf() ==> final(self)@.wf(),
            dropped == old(self)@.can_land(over),
    {
        let held = match self.dragging.take() {
            Some(held) => held,
            None => {
                return false;
            },
        };
        let mut kind = held.last_parent;
        let mut slot = held.last_index;
        match over {
            Some((target, wanted)) => {
                let len = match target {
                    ScrollKind::Inventory => self.scroll.len(),
                    ScrollKind::Loot => self.loot.len(),
                };
                if len < target.size() {
                    kind = target;
                    slot = if wanted < len {
                        wanted
                    } else {
                        len
                    };
                }
            },
            None => {},
        }
        let last_parent = held.last_parent;
        let last_index = held.last_index;
        let done = match kind {
            ScrollKind::Inventory => self.scroll.insert_at(slot, held.item),
            ScrollKind::Loot => self.loot.insert_at(slot, held.item),
        };
        match done {
            Ok(_) => true,
            Err(item) => {
                self.dragging = Some(Dragging { item, last_parent, last_index });
                false
            },
        }
    }
}

/// Taking the bonuses off keeps a scroll in order.
pub proof fn lemma_cleared_keeps_order(scroll: Seq<ItemView>)
    ensures
        scroll_wf(scroll) ==> scroll_wf(all_cleared(scroll)),
{
    let after = all_cleared(scroll);
    assert(scroll_ids(after) =~= scroll_ids(scroll));
    if scroll_wf(scroll) {
        assert forall|i: int| 0 <= i < after.len() implies (#[trigger] after[i]).wf() by {
            assert(after[i] == scroll[i].cleared());
            assert(scroll[i].wf());
        }
    }
}

/// An item that is picked up and let go away from any scroll is back in
/// the slot it came from: the inventory is as it was.
pub proof fn lemma_put_back(inventory: InventoryView, id: u64)
    requires
        inventory.wf(),
        inventory.dragging is None,
        inventory.scroll.len() <= usize::MAX,
        inventory.loot.len() <= usize::MAX,
    ensures
        inventory.picked_up(id).let_go(None) == inventory,
{
    let held = inventory.picked_up(id);
    if let Some(slot) = position(inventory.scroll, id) {
        assert(is_first(inventory.scroll, id, slot));
        lemma_remove_keeps_order(inventory.scroll, slot);
        assert(held.can_land(None));
        assert(inventory.scroll.remove(slot).insert(slot, inventory.scroll[slot])
            =~= inventory.scroll);
    } else if let Some(slot) = position(inventory.loot, id) {
        assert(is_first(inventory.loot, id, slot));
        lemma_remove_keeps_order(inventory.loot, slot);
        assert(held.can_land(None));
        assert(inventory.loot.remove(slot).insert(slot, inventory.loot[slot]) =~= inventory.loot);
    }
}

} // verus!
