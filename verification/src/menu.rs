//! Context menus: what is appended to the native menu, and what the choice of the user means.

use crate::ime::{Action, SelectionUnit};
use crate::utf16::{to_wide, wide};
use std::collections::HashMap;
use vstd::prelude::*;

verus! {

broadcast use vstd::std_specs::hash::group_hash_axioms;

#[derive(Clone, Copy, PartialEq, Eq, Structural, Debug)]
pub enum StandardAction {
    Copy,
    Cut,
    Paste,
    SelectAll,
}

/// An item of a menu, with its title in the language of the user and commands of type `C`.
#[derive(Debug)]
pub enum MenuItem<C> {
    Action { title: String, command: C, enabled: bool, selected: bool },
    Submenu { title: String, items: Vec<MenuItem<C>>, enabled: bool },
    Separator,
    Standard(StandardAction),
}

/// The menu that an entry is appended to.
#[derive(Clone, Copy, PartialEq, Eq, Structural, Debug)]
pub enum MenuTarget {
    /// The context menu itself.
    Root,
    /// The submenu that the item of this index opens.
    Submenu(usize),
}

/// An entry that is appended to a native menu.
#[derive(PartialEq, Eq, Debug)]
pub struct MenuEntry {
    pub target: MenuTarget,
    pub flags: u32,
    /// The identifier of the entry, or the handle of the submenu that it opens.
    pub id: usize,
    pub title: Option<Vec<u16>>,
}

/// A [`MenuEntry`] with its title as a sequence of code units.
pub struct EntryView {
    pub target: MenuTarget,
    pub flags: u32,
    pub id: int,
    pub title: Option<Seq<u16>>,
}

impl View for MenuEntry {
    type V = EntryView;

    open spec fn view(&self) -> EntryView {
        EntryView {
            target: self.target,
            flags: self.flags,
            id: self.id as int,
            title: match self.title {
                Some(title) => Some(title@),
                None => None,
            },
        }
    }
}

/// A list of entries, each by its view.
pub open spec fn views(entries: Seq<MenuEntry>) -> Seq<EntryView> {
    entries.map_values(|entry: MenuEntry| entry@)
}

pub const MF_DISABLED: u32 = 0x002;

pub const MF_CHECKED: u32 = 0x008;

pub const MF_POPUP: u32 = 0x010;

pub const MF_SEPARATOR: u32 = 0x800;

/// The identifier of the first item of the menu, if it is an action.
pub const TOP_LEVEL_BASE: u32 = 1000;

/// The smallest identifier of an action in a submenu.
pub const SUBMENU_BASE: u32 = 2000;

/// The flags of an action.
pub open spec fn action_flags(enabled: bool, selected: bool) -> u32 {
    if enabled {
        if selected {
            0x8
        } else {
            0x0
        }
    } else {
        if selected {
            0xA
        } else {
            0x2
        }
    }
}

/// The entry of an action that is appended to `target` with the identifier `id`.
pub open spec fn action_entry<C>(item: MenuItem<C>, target: MenuTarget, id: int) -> EntryView
    recommends
        item is Action,
{
    EntryView {
        target,
        flags: action_flags(item->Action_enabled, item->selected),
        id,
        title: Some(wide(item->Action_title@)),
    }
}

/// The name and the identifier of a standard action.
pub open spec fn standard_entry(action: StandardAction) -> (Seq<char>, int) {
    match action {
        StandardAction::Copy => ("Copy"@, 1),
        StandardAction::Cut => ("Cut"@, 2),
        StandardAction::Paste => ("Paste"@, 3),
        StandardAction::SelectAll => ("Select All"@, 4),
    }
}

/// How many identifiers are set aside for the actions in item `item`: as many as a submenu has
/// items, if there is a native menu for it.
pub open spec fn identifiers_of<C>(item: MenuItem<C>, handle: usize) -> int {
    match item {
        MenuItem::Submenu { title, items, enabled } => if handle == 0 {
            0
        } else {
            items@.len() as int
        },
        _ => 0,
    }
}

/// The identifier of the first item of the submenu that item `index` opens. Those of the
/// submenus run on from one to the next, behind those of the menu itself.
pub open spec fn submenu_base<C>(
    items: Seq<MenuItem<C>>,
    handles: Seq<usize>,
    index: int,
) -> int
    decreases index,
{
    if index <= 0 {
        if 1000 + items.len() > 2000 {
            (1000 + items.len()) as int
        } else {
            2000
        }
    } else {
        submenu_base(items, handles, index - 1) + identifiers_of(
            items[index - 1],
            handles[index - 1],
        )
    }
}

/// The entries for the first `count` items of the submenu that item `index` opens, with
/// identifiers from `base` on. Only actions are shown in a submenu.
pub open spec fn submenu_entries<C>(
    items: Seq<MenuItem<C>>,
    index: int,
    base: int,
    count: int,
) -> Seq<EntryView>
    decreases count,
{
    if count <= 0 {
        seq![]
    } else {
        let before = submenu_entries(items, index, base, count - 1);
        match items[count - 1] {
            MenuItem::Action { .. } => before.push(
                action_entry(
                    items[count - 1],
                    MenuTarget::Submenu(index as usize),
                    base + (count - 1),
                ),
            ),
            _ => before,
        }
    }
}

/// The entries for item `index`, where `handle` is the native menu for it if it is a submenu, and
/// `base` the identifier of its first item. A submenu without a native menu is left out.
pub open spec fn item_entries<C>(
    item: MenuItem<C>,
    index: int,
    handle: usize,
    base: int,
) -> Seq<EntryView> {
    match item {
        MenuItem::Action { .. } => seq![action_entry(item, MenuTarget::Root, 1000 + index)],
        MenuItem::Submenu { title, items, enabled } => if handle == 0 {
            seq![]
        } else {
            submenu_entries(items@, index, base, items@.len() as int).push(
                EntryView {
                    target: MenuTarget::Root,
                    flags: if enabled {
                        0x10
                    } else {
                        0x12
                    },
                    id: handle as int,
                    title: Some(wide(title@)),
                },
            )
        },
        MenuItem::Separator => seq![
            EntryView { target: MenuTarget::Root, flags: 0x800, id: 0, title: None },
        ],
        MenuItem::Standard(action) => seq![
            EntryView {
                target: MenuTarget::Root,
                flags: 0,
                id: standard_entry(action).1,
                title: Some(wide(standard_entry(action).0)),
            },
        ],
    }
}

/// The entries for the first `count` items of a menu.
pub open spec fn menu_entries<C>(
    items: Seq<MenuItem<C>>,
    handles: Seq<usize>,
    count: int,
) -> Seq<EntryView>
    decreases count,
{
    if count <= 0 {
        seq![]
    } else {
        menu_entries(items, handles, count - 1) + item_entries(
            items[count - 1],
            count - 1,
            handles[count - 1],
            submenu_base(items, handles, count - 1),
        )
    }
}

/// The commands of the first `count` items of a submenu, by identifier from `base` on, added to
/// `commands`.
pub open spec fn submenu_commands<C>(
    items: Seq<MenuItem<C>>,
    base: int,
    count: int,
    commands: Map<u32, C>,
) -> Map<u32, C>
    decreases count,
{
    if count <= 0 {
        commands
    } else {
        let before = submenu_commands(items, base, count - 1, commands);
        match items[count - 1] {
            MenuItem::Action { title, command, enabled, selected } => before.insert(
                (base + (count - 1)) as u32,
                command,
            ),
            _ => before,
        }
    }
}

/// The commands of item `index`, by identifier, added to `commands`.
pub open spec fn item_commands<C>(
    item: MenuItem<C>,
    index: int,
    handle: usize,
    base: int,
    commands: Map<u32, C>,
) -> Map<u32, C> {
    match item {
        MenuItem::Action { title, command, enabled, selected } => commands.insert(
            (1000 + index) as u32,
            command,
        ),
        MenuItem::Submenu { title, items, enabled } => if handle == 0 {
            commands
        } else {
            submenu_commands(items@, base, items@.len() as int, commands)
        },
        _ => commands,
    }
}

/// The commands of the first `count` items of a menu, by identifier.
pub open spec fn menu_commands<C>(
    items: Seq<MenuItem<C>>,
    handles: Seq<usize>,
    count: int,
) -> Map<u32, C>
    decreases count,
{
    if count <= 0 {
        Map::empty()
    } else {
        item_commands(
            items[count - 1],
            count - 1,
            handles[count - 1],
            submenu_base(items, handles, count - 1),
            menu_commands(items, handles, count - 1),
        )
    }
}

/// Whether the identifiers of all items, those in submenus included, fit into 32 bits.
pub open spec fn identifiers_fit<C>(items: Seq<MenuItem<C>>, handles: Seq<usize>) -> bool {
    submenu_base(items, handles, items.len() as int) <= u32::MAX
}

/// A context menu as it is shown: the entries to append, in order, and the commands by
/// identifier.
pub struct ContextMenu<C> {
    pub entries: Vec<MenuEntry>,
    pub commands: HashMap<u32, C>,
}

/// The flags of an action that is or is not enabled and selected.
fn item_flags(enabled: bool, selected: bool) -> (flags: u32)
    ensures
        flags == action_flags(enabled, selected),
{
    let mut flags: u32 = 0;
    assert(0u32 | 2 == 2 && 0u32 | 8 == 8 && 2u32 | 8 == 0xA) by (bit_vector);
    if !enabled {
        flags = flags | MF_DISABLED;
    }
    if selected {
        flags = flags | MF_CHECKED;
    }
    flags
}

fn standard_item(action: StandardAction) -> (entry: MenuEntry)
    ensures
        entry@ == (EntryView {
            target: MenuTarget::Root,
            flags: 0,
            id: standard_entry(action).1,
            title: Some(wide(standard_entry(action).0)),
        }),
{
    let (name, id): (&str, usize) = match action {
        StandardAction::Copy => ("Copy", 1),
        StandardAction::Cut => ("Cut", 2),
        StandardAction::Paste => ("Paste", 3),
        StandardAction::SelectAll => ("Select All", 4),
    };
    MenuEntry { target: MenuTarget::Root, flags: 0, id, title: Some(to_wide(name)) }
}

impl<C: Copy> ContextMenu<C> {
    fn push(&mut self, entry: MenuEntry)
        ensures
            views(final(self).entries@) == views(old(self).entries@).push(entry@),
            final(self).commands@ == old(self).commands@,
    {
        self.entries.push(entry);
        assert(views(self.entries@) =~= views(old(self).entries@).push(entry@));
    }

    /// Appends the actions of the submenu that item `index` opens, with identifiers from `base` on.
    fn append_submenu(&mut self, items: &Vec<MenuItem<C>>, index: usize, base: u32)
        requires
            base + items@.len() <= u32::MAX,
        ensures
            views(final(self).entries@) == views(old(self).entries@) + submenu_entries(
                items@,
                index as int,
                base as int,
                items@.len() as int,
            ),
            final(self).commands@ == submenu_commands(
                items@,
                base as int,
                items@.len() as int,
                old(self).commands@,
            ),
    {
        let mut i: usize = 0;
        assert(views(self.entries@) =~= views(old(self).entries@) + submenu_entries(
            items@,
            index as int,
            base as int,
            0,
        ));
        while i < items.len()
            invariant
                i <= items@.len(),
                base + items@.len() <= u32::MAX,
                views(self.entries@) == views(old(self).entries@) + submenu_entries(
                    items@,
                    index as int,
                    base as int,
                    i as int,
                ),
                self.commands@ == submenu_commands(
                    items@,
                    base as int,
                    i as int,
                    old(self).commands@,
                ),
            decreases items@.len() - i,
        {
            if let MenuItem::Action { title, command, enabled, selected } = &items[i] {
                let id: u32 = base + i as u32;
                self.commands.insert(id, *command);
                let entry: MenuEntry = MenuEntry {
                    target: MenuTarget::Submenu(index),
                    flags: item_flags(*enabled, *selected),
                    id: id as usize,
                    title: Some(to_wide(title.as_str())),
                };
                self.push(entry);
            }
            assert(views(self.entries@) =~= views(old(self).entries@) + submenu_entries(
                items@,
                index as int,
                base as int,
                i + 1,
            ));
            i = i + 1;
        }
    }

    /// Appends one item, where `handle` is the native menu for it if it is a submenu, and `base`
    /// the identifier of its first item; gives the first identifier behind those of the item.
    fn append_item(&mut self, item: &MenuItem<C>, index: usize, handle: usize, base: u32) -> (next:
        u32)
        requires
            1000 + index < u32::MAX,
            base + identifiers_of(*item, handle) <= u32::MAX,
        ensures
            next == base + identifiers_of(*item, handle),
            views(final(self).entries@) == views(old(self).entries@) + item_entries(
                *item,
                index as int,
                handle,
                base as int,
            ),
            final(self).commands@ == item_commands(
                *item,
                index as int,
                handle,
                base as int,
                old(self).commands@,
            ),
    {
        let mut next: u32 = base;
        match item {
            MenuItem::Action { title, command, enabled, selected } => {
                let id: u32 = TOP_LEVEL_BASE + index as u32;
                self.commands.insert(id, *command);
                self.push(
                    MenuEntry {
                        target: MenuTarget::Root,
                        flags: item_flags(*enabled, *selected),
                        id: id as usize,
                        title: Some(to_wide(title.as_str())),
                    },
                );
            },
            MenuItem::Submenu { title, items, enabled } => {
                if handle != 0 {
                    self.append_submenu(items, index, base);
                    next = base + items.len() as u32;
                    assert(0x10u32 | 2 == 0x12) by (bit_vector);
                    let flags: u32 = if *enabled {
                        MF_POPUP
                    } else {
                        MF_POPUP | MF_DISABLED
                    };
                    self.push(
                        MenuEntry {
                            target: MenuTarget::Root,
                            flags,
                            id: handle,
                            title: Some(to_wide(title.as_str())),
                        },
                    );
                }
            },
            MenuItem::Separator => {
                self.push(
                    MenuEntry { target: MenuTarget::Root, flags: MF_SEPARATOR, id: 0, title: None },
                );
            },
            MenuItem::Standard(action) => {
                self.push(standard_item(*action));
            },
        }
        assert(views(self.entries@) =~= views(old(self).entries@) + item_entries(
            *item,
            index as int,
            handle,
            base as int,
        ));
        next
    }

    /// Builds the menu for `items`. For an item that is a submenu, `handles` has the native menu
    /// that was created for it, or zero where that failed.
    pub fn build(items: &Vec<MenuItem<C>>, handles: &Vec<usize>) -> (menu: ContextMenu<C>)
        requires
            handles@.len() == items@.len(),
            identifiers_fit(items@, handles@),
        ensures
            views(menu.entries@) == menu_entries(items@, handles@, items@.len() as int),
            menu.commands@ == menu_commands(items@, handles@, items@.len() as int),
    {
        let mut menu: ContextMenu<C> = ContextMenu {
            entries: Vec::new(),
            commands: HashMap::new(),
        };
        proof {
            lemma_base_grows(items@, handles@, 0, items@.len() as int);
        }
        let top: u32 = TOP_LEVEL_BASE + items.len() as u32;
        let mut base: u32 = if top > SUBMENU_BASE {
            top
        } else {
            SUBMENU_BASE
        };
        let mut i: usize = 0;
        assert(views(menu.entries@) =~= menu_entries(items@, handles@, 0));
        assert(menu.commands@ =~= menu_commands(items@, handles@, 0));
        while i < items.len()
            invariant
                i <= items@.len(),
                handles@.len() == items@.len(),
                identifiers_fit(items@, handles@),
                1000 + items@.len() <= u32::MAX,
                base == submenu_base(items@, handles@, i as int),
                views(menu.entries@) == menu_entries(items@, handles@, i as int),
                menu.commands@ == menu_commands(items@, handles@, i as int),
            decreases items@.len() - i,
        {
            proof {
                lemma_base_grows(items@, handles@, i + 1, items@.len() as int);
            }
            base = menu.append_item(&items[i], i, handles[i], base);
            i = i + 1;
        }
        menu
    }
}

/// The identifiers of later submenus are larger, and all of them larger than those of the menu
/// itself.
proof fn lemma_base_grows<C>(items: Seq<MenuItem<C>>, handles: Seq<usize>, from: int, to: int)
    requires
        0 <= from <= to,
    ensures
        submenu_base(items, handles, from) <= submenu_base(items, handles, to),
        submenu_base(items, handles, from) >= 2000,
        submenu_base(items, handles, from) >= 1000 + items.len(),
    decreases to,
{
    if from < to {
        lemma_base_grows(items, handles, from, to - 1);
    } else if to > 0 {
        lemma_base_grows(items, handles, from - 1, to - 1);
    }
}

/// What the choice of the user means.
#[derive(PartialEq, Eq, Debug)]
pub enum MenuChoice<C> {
    /// The menu was dismissed.
    Dismissed,
    /// A command of the application.
    Command(C),
    /// A standard action for the input handler that has the focus.
    Edit(Action),
    /// An identifier that nothing belongs to.
    Unknown,
}

/// The standard action of an identifier.
pub open spec fn standard_choice(id: u32) -> Option<Action> {
    if id == 1 {
        Some(Action::Copy)
    } else if id == 2 {
        Some(Action::Cut)
    } else if id == 3 {
        Some(Action::Paste)
    } else if id == 4 {
        Some(Action::Select(SelectionUnit::All))
    } else {
        None
    }
}

/// What it means that the entry of this identifier was chosen. Commands go first; zero is no
/// entry at all.
pub open spec fn chosen<C>(commands: Map<u32, C>, id: u32) -> MenuChoice<C> {
    if id == 0 {
        MenuChoice::Dismissed
    } else if commands.dom().contains(id) {
        MenuChoice::Command(commands[id])
    } else {
        match standard_choice(id) {
            Some(action) => MenuChoice::Edit(action),
            None => MenuChoice::Unknown,
        }
    }
}

impl<C: Copy> ContextMenu<C> {
    /// What it means that `result` came back from the menu.
    pub fn choice(&self, result: i32) -> (choice: MenuChoice<C>)
        ensures
            choice == chosen(self.commands@, result as u32),
    {
        let id: u32 = #[verifier::truncate]
        (result as u32);
        if id == 0 {
            return MenuChoice::Dismissed;
        }
        match self.commands.get(&id) {
            Some(command) => MenuChoice::Command(*command),
            None => if id == 1 {
                MenuChoice::Edit(Action::Copy)
            } else if id == 2 {
                MenuChoice::Edit(Action::Cut)
            } else if id == 3 {
                MenuChoice::Edit(Action::Paste)
            } else if id == 4 {
                MenuChoice::Edit(Action::Select(SelectionUnit::All))
            } else {
                MenuChoice::Unknown
            },
        }
    }
}

/// Whether item `index` gives the identifier `id` to one of its commands.
pub open spec fn claims<C>(
    items: Seq<MenuItem<C>>,
    handles: Seq<usize>,
    index: int,
    id: u32,
) -> bool {
    let base = submenu_base(items, handles, index);
    match items[index] {
        MenuItem::Action { title, command, enabled, selected } => id == 1000 + index,
        MenuItem::Submenu { title, items: sub, enabled } => {
            &&& handles[index] != 0
            &&& base <= id < base + sub@.len()
            &&& sub@[id - base] is Action
        },
        _ => false,
    }
}

/// No two items of a menu share an identifier, whatever the menu holds.
pub proof fn law_identifiers_are_distinct<C>(
    items: Seq<MenuItem<C>>,
    handles: Seq<usize>,
    i: int,
    j: int,
    id: u32,
)
    requires
        0 <= i < items.len(),
        0 <= j < items.len(),
        claims(items, handles, i, id),
        claims(items, handles, j, id),
    ensures
        i == j,
{
    let first = if i < j {
        i
    } else {
        j
    };
    let second = if i < j {
        j
    } else {
        i
    };
    lemma_base_grows(items, handles, first, second);
    if first < second {
        lemma_base_grows(items, handles, first + 1, second);
    }
}

/// The commands of a submenu have the identifiers of their places; the others stay as they were.
proof fn lemma_submenu_commands<C>(
    items: Seq<MenuItem<C>>,
    base: int,
    count: int,
    commands: Map<u32, C>,
    id: u32,
)
    requires
        0 <= count <= items.len(),
        0 <= base,
        base + items.len() <= u32::MAX,
    ensures
        base <= id < base + count && items[id - base] is Action ==> {
            &&& submenu_commands(items, base, count, commands).dom().contains(id)
            &&& submenu_commands(items, base, count, commands)[id] == items[id - base]->command
        },
        !(base <= id < base + count && items[id - base] is Action) ==> {
            &&& submenu_commands(items, base, count, commands).dom().contains(id)
                == commands.dom().contains(id)
            &&& submenu_commands(items, base, count, commands)[id] == commands[id]
        },
    decreases count,
{
    if count > 0 {
        lemma_submenu_commands(items, base, count - 1, commands, id);
    }
}

/// Item `count - 1` leaves alone the identifiers that it does not claim.
proof fn lemma_unclaimed<C>(items: Seq<MenuItem<C>>, handles: Seq<usize>, count: int, id: u32)
    requires
        0 < count <= items.len(),
        identifiers_fit(items, handles),
        !claims(items, handles, count - 1, id),
    ensures
        menu_commands(items, handles, count).dom().contains(id) == menu_commands(
            items,
            handles,
            count - 1,
        ).dom().contains(id),
        menu_commands(items, handles, count)[id] == menu_commands(items, handles, count - 1)[id],
{
    lemma_base_grows(items, handles, count, items.len() as int);
    lemma_base_grows(items, handles, count - 1, count);
    if let MenuItem::Submenu { title, items: sub, enabled } = items[count - 1] {
        if handles[count - 1] != 0 {
            lemma_submenu_commands(
                sub@,
                submenu_base(items, handles, count - 1),
                sub@.len() as int,
                menu_commands(items, handles, count - 1),
                id,
            );
        }
    }
}

/// What stands behind `from` leaves alone the identifiers that it does not claim.
proof fn lemma_later_items<C>(
    items: Seq<MenuItem<C>>,
    handles: Seq<usize>,
    from: int,
    count: int,
    id: u32,
)
    requires
        0 <= from <= count <= items.len(),
        identifiers_fit(items, handles),
        forall|k: int| from <= k < count ==> !#[trigger] claims(items, handles, k, id),
    ensures
        menu_commands(items, handles, count).dom().contains(id) == menu_commands(
            items,
            handles,
            from,
        ).dom().contains(id),
        menu_commands(items, handles, count)[id] == menu_commands(items, handles, from)[id],
    decreases count,
{
    if from < count {
        lemma_later_items(items, handles, from, count - 1, id);
        lemma_unclaimed(items, handles, count, id);
    }
}

/// The identifier of an item's command stays its own to the end of the menu.
proof fn lemma_claim_lasts<C>(items: Seq<MenuItem<C>>, handles: Seq<usize>, index: int, id: u32)
    requires
        0 <= index < items.len(),
        identifiers_fit(items, handles),
        claims(items, handles, index, id),
    ensures
        menu_commands(items, handles, items.len() as int).dom().contains(id) == menu_commands(
            items,
            handles,
            index + 1,
        ).dom().contains(id),
        menu_commands(items, handles, items.len() as int)[id] == menu_commands(
            items,
            handles,
            index + 1,
        )[id],
{
    assert forall|k: int| index < k < items.len() implies !#[trigger] claims(
        items,
        handles,
        k,
        id,
    ) by {
        if claims(items, handles, k, id) {
            law_identifiers_are_distinct(items, handles, index, k, id);
        }
    }
    lemma_later_items(items, handles, index + 1, items.len() as int, id);
}

/// The entries of an item are among those of the menu.
proof fn lemma_item_is_shown<C>(
    items: Seq<MenuItem<C>>,
    handles: Seq<usize>,
    index: int,
    count: int,
    entry: EntryView,
)
    requires
        0 <= index < count,
        item_entries(
            items[index],
            index,
            handles[index],
            submenu_base(items, handles, index),
        ).contains(entry),
    ensures
        menu_entries(items, handles, count).contains(entry),
    decreases count,
{
    let before = menu_entries(items, handles, count - 1);
    let last = item_entries(
        items[count - 1],
        count - 1,
        handles[count - 1],
        submenu_base(items, handles, count - 1),
    );
    if index < count - 1 {
        lemma_item_is_shown(items, handles, index, count - 1, entry);
        let k = choose|k: int| 0 <= k < before.len() && before[k] == entry;
        assert((before + last)[k] == entry);
    } else {
        let k = choose|k: int| 0 <= k < last.len() && last[k] == entry;
        assert((before + last)[before.len() + k] == entry);
    }
}

/// The action at `place` is among the entries of a submenu.
proof fn lemma_submenu_action_is_shown<C>(
    items: Seq<MenuItem<C>>,
    index: int,
    base: int,
    place: int,
    count: int,
)
    requires
        0 <= place < count,
        items[place] is Action,
    ensures
        submenu_entries(items, index, base, count).contains(
            action_entry(items[place], MenuTarget::Submenu(index as usize), base + place),
        ),
    decreases count,
{
    let entry = action_entry(items[place], MenuTarget::Submenu(index as usize), base + place);
    let all = submenu_entries(items, index, base, count);
    if place < count - 1 {
        lemma_submenu_action_is_shown(items, index, base, place, count - 1);
        let before = submenu_entries(items, index, base, count - 1);
        let k = choose|k: int| 0 <= k < before.len() && before[k] == entry;
        assert(all[k] == entry);
    } else {
        assert(all.last() == entry);
    }
}

/// Choosing an action of the menu gives its command, whatever else is in the menu: it is shown
/// with an identifier that stands for it alone.
pub proof fn law_action_gives_its_command<C>(
    items: Seq<MenuItem<C>>,
    handles: Seq<usize>,
    index: int,
)
    requires
        handles.len() == items.len(),
        identifiers_fit(items, handles),
        0 <= index < items.len(),
        items[index] is Action,
    ensures
        menu_entries(items, handles, items.len() as int).contains(
            action_entry(items[index], MenuTarget::Root, 1000 + index),
        ),
        chosen(menu_commands(items, handles, items.len() as int), (1000 + index) as u32)
            == MenuChoice::Command(items[index]->command),
{
    lemma_base_grows(items, handles, 0, items.len() as int);
    lemma_claim_lasts(items, handles, index, (1000 + index) as u32);
    let base = submenu_base(items, handles, index);
    let entry = action_entry(items[index], MenuTarget::Root, 1000 + index);
    assert(item_entries(items[index], index, handles[index], base)[0] == entry);
    lemma_item_is_shown(items, handles, index, items.len() as int, entry);
}

/// Choosing an action of a submenu gives its command, whatever else is in the menu: it is shown
/// with an identifier that stands for it alone.
pub proof fn law_submenu_action_gives_its_command<C>(
    items: Seq<MenuItem<C>>,
    handles: Seq<usize>,
    index: int,
    place: int,
)
    requires
        handles.len() == items.len(),
        identifiers_fit(items, handles),
        0 <= index < items.len(),
        handles[index] != 0,
        items[index] matches MenuItem::Submenu { title, items: sub, enabled } && 0 <= place
            < sub@.len() && sub@[place] is Action,
    ensures
        items[index] matches MenuItem::Submenu { title, items: sub, enabled } && {
            &&& menu_entries(items, handles, items.len() as int).contains(
                action_entry(
                    sub@[place],
                    MenuTarget::Submenu(index as usize),
                    submenu_base(items, handles, index) + place,
                ),
            )
            &&& chosen(
                menu_commands(items, handles, items.len() as int),
                (submenu_base(items, handles, index) + place) as u32,
            ) == MenuChoice::Command(sub@[place]->command)
        },
{
    let base = submenu_base(items, handles, index);
    lemma_base_grows(items, handles, index, index + 1);
    lemma_base_grows(items, handles, index + 1, items.len() as int);
    if let MenuItem::Submenu { title, items: sub, enabled } = items[index] {
        let id = (base + place) as u32;
        lemma_submenu_commands(
            sub@,
            base,
            sub@.len() as int,
            menu_commands(items, handles, index),
            id,
        );
        lemma_claim_lasts(items, handles, index, id);
        let entry = action_entry(
            sub@[place],
            MenuTarget::Submenu(index as usize),
            base + place,
        );
        lemma_submenu_action_is_shown(sub@, index, base, place, sub@.len() as int);
        let shown = submenu_entries(sub@, index, base, sub@.len() as int);
        let k = choose|k: int| 0 <= k < shown.len() && shown[k] == entry;
        assert(item_entries(items[index], index, handles[index], base)[k] == entry);
        lemma_item_is_shown(items, handles, index, items.len() as int, entry);
    }
}

/// The flags of entries, bit by bit.
proof fn lemma_flag_bits()
    by (bit_vector)
    ensures
        0u32 & 2 == 0 && 0u32 & 8 == 0 && 0u32 & !0xAu32 == 0,
        2u32 & 2 != 0 && 2u32 & 8 == 0 && 2u32 & !0xAu32 == 0,
        8u32 & 2 == 0 && 8u32 & 8 != 0 && 8u32 & !0xAu32 == 0,
        0xAu32 & 2 != 0 && 0xAu32 & 8 != 0 && 0xAu32 & !0xAu32 == 0,
        0x10u32 & 2 == 0 && 0x10u32 & 0x10 != 0 && 0x10u32 & !0x12u32 == 0,
        0x12u32 & 2 != 0 && 0x12u32 & 0x10 != 0 && 0x12u32 & !0x12u32 == 0,
{
}

/// Whether `entry` shows an action of this title that is or is not enabled and selected: it is
/// greyed out exactly where the action is not enabled, has a check mark exactly where it is
/// selected, and is marked in no other way.
pub open spec fn shows_action(
    entry: EntryView,
    title: Seq<char>,
    enabled: bool,
    selected: bool,
) -> bool {
    &&& entry.title == Some(wide(title))
    &&& entry.flags & 0x2 != 0 <==> !enabled
    &&& entry.flags & 0x8 != 0 <==> selected
    &&& entry.flags & !0xAu32 == 0
}

/// A menu shows its items in order, each behind those before it and without changing them. An
/// action is one entry of the menu itself, with the identifier of its place. A separator is one
/// entry without a title. A standard action is one entry with its name and its own identifier. A
/// submenu is the entries in it, and then one entry that opens its native menu; without a native
/// menu it is not shown.
pub proof fn law_items_are_shown_in_order<C>(
    items: Seq<MenuItem<C>>,
    handles: Seq<usize>,
    index: int,
)
    requires
        0 <= index,
    ensures
        menu_entries(items, handles, 0) == Seq::<EntryView>::empty(),
        ({
            let before = menu_entries(items, handles, index);
            let all = menu_entries(items, handles, index + 1);
            let last = all.last();
            match items[index] {
                MenuItem::Action { title, command, enabled, selected } => {
                    &&& all == before.push(last)
                    &&& last.target == MenuTarget::Root
                    &&& last.id == 1000 + index
                    &&& shows_action(last, title@, enabled, selected)
                },
                MenuItem::Separator => {
                    &&& all == before.push(last)
                    &&& last.target == MenuTarget::Root
                    &&& last.flags == 0x800
                    &&& last.title is None
                },
                MenuItem::Standard(action) => {
                    &&& all == before.push(last)
                    &&& last.target == MenuTarget::Root
                    &&& last.flags == 0
                    &&& action is Copy ==> last.id == 1 && last.title == Some(wide("Copy"@))
                    &&& action is Cut ==> last.id == 2 && last.title == Some(wide("Cut"@))
                    &&& action is Paste ==> last.id == 3 && last.title == Some(wide("Paste"@))
                    &&& action is SelectAll ==> last.id == 4 && last.title == Some(
                        wide("Select All"@),
                    )
                },
                MenuItem::Submenu { title, items: sub, enabled } => if handles[index] == 0 {
                    all == before
                } else {
                    &&& all == (before + submenu_entries(
                        sub@,
                        index,
                        submenu_base(items, handles, index),
                        sub@.len() as int,
                    )).push(last)
                    &&& last.target == MenuTarget::Root
                    &&& last.id == handles[index]
                    &&& last.title == Some(wide(title@))
                    &&& last.flags & 0x10 != 0
                    &&& last.flags & 0x2 != 0 <==> !enabled
                    &&& last.flags & !0x12u32 == 0
                },
            }
        }),
{
    lemma_flag_bits();
    let before = menu_entries(items, handles, index);
    let all = menu_entries(items, handles, index + 1);
    let own = item_entries(
        items[index],
        index,
        handles[index],
        submenu_base(items, handles, index),
    );
    assert(all == before + own);
    if own.len() == 0 {
        assert(all =~= before);
    } else {
        assert(all =~= (before + own.drop_last()).push(all.last()));
        assert(before + Seq::<EntryView>::empty() =~= before);
        if items[index] is Submenu {
            assert(own.drop_last() =~= submenu_entries(
                items[index]->items@,
                index,
                submenu_base(items, handles, index),
                items[index]->items@.len() as int,
            ));
        } else {
            assert(own.drop_last() =~= Seq::<EntryView>::empty());
        }
    }
}

/// A submenu shows its actions in order, each as one entry of the submenu with the identifier of
/// its place, and nothing else.
pub proof fn law_submenu_items_are_shown_in_order<C>(
    items: Seq<MenuItem<C>>,
    index: int,
    base: int,
    place: int,
)
    requires
        0 <= place,
    ensures
        submenu_entries(items, index, base, 0) == Seq::<EntryView>::empty(),
        ({
            let before = submenu_entries(items, index, base, place);
            let all = submenu_entries(items, index, base, place + 1);
            let last = all.last();
            match items[place] {
                MenuItem::Action { title, command, enabled, selected } => {
                    &&& all == before.push(last)
                    &&& last.target == MenuTarget::Submenu(index as usize)
                    &&& last.id == base + place
                    &&& shows_action(last, title@, enabled, selected)
                },
                _ => all == before,
            }
        }),
{
    lemma_flag_bits();
}

/// The identifiers of the submenus start behind those of the menu itself and not below 2000, and
/// each submenu that is shown has as many as it has items.
pub proof fn law_submenu_identifiers<C>(items: Seq<MenuItem<C>>, handles: Seq<usize>, index: int)
    requires
        0 <= index,
    ensures
        submenu_base(items, handles, 0) >= 2000,
        submenu_base(items, handles, 0) >= 1000 + items.len(),
        submenu_base(items, handles, 0) == 2000 || submenu_base(items, handles, 0) == 1000
            + items.len(),
        items[index] matches MenuItem::Submenu { title, items: sub, enabled } ==> submenu_base(
            items,
            handles,
            index + 1,
        ) - submenu_base(items, handles, index) == (if handles[index] == 0 {
            0
        } else {
            sub@.len() as int
        }),
        items[index] !is Submenu ==> submenu_base(items, handles, index + 1) == submenu_base(
            items,
            handles,
            index,
        ),
{
}

/// Whatever is chosen as a command is the command of an action in the menu.
pub proof fn law_commands_come_from_items<C>(
    items: Seq<MenuItem<C>>,
    handles: Seq<usize>,
    count: int,
    id: u32,
)
    requires
        identifiers_fit(items, handles),
        0 <= count <= items.len(),
        menu_commands(items, handles, count).dom().contains(id),
    ensures
        exists|index: int| 0 <= index < count && #[trigger] claims(items, handles, index, id),
    decreases count,
{
    if count > 0 {
        if claims(items, handles, count - 1, id) {
        } else {
            lemma_unclaimed(items, handles, count, id);
            law_commands_come_from_items(items, handles, count - 1, id);
        }
    }
}

/// What comes back from a menu is decoded completely: nothing for zero, the command of its
/// identifier where there is one, else one of the four standard actions for the numbers one to
/// four, and nothing else.
pub proof fn law_choices<C>(commands: Map<u32, C>, id: u32)
    ensures
        chosen(commands, id) is Dismissed <==> id == 0,
        chosen(commands, id) is Command <==> id != 0 && commands.dom().contains(id),
        chosen(commands, id) matches MenuChoice::Command(command) ==> command == commands[id],
        chosen(commands, id) is Edit <==> 1 <= id <= 4 && !commands.dom().contains(id),
        chosen(commands, id) == MenuChoice::<C>::Edit(Action::Copy) ==> id == 1,
        chosen(commands, id) == MenuChoice::<C>::Edit(Action::Cut) ==> id == 2,
        chosen(commands, id) == MenuChoice::<C>::Edit(Action::Paste) ==> id == 3,
        chosen(commands, id) == MenuChoice::<C>::Edit(Action::Select(SelectionUnit::All)) ==> id
            == 4,
        chosen(commands, id) matches MenuChoice::Edit(action) ==> action is Copy || action is Cut
            || action is Paste || action is Select,
{
}

/// The views of a list of entries are those of its entries, one for one.
pub proof fn law_views(entries: Seq<MenuEntry>, i: int)
    ensures
        views(entries).len() == entries.len(),
        0 <= i < entries.len() ==> views(entries)[i] == entries[i]@,
{
}

/// The view of an entry says all of it.
pub proof fn law_entry_view(a: MenuEntry, b: MenuEntry)
    requires
        a@ == b@,
    ensures
        a.target == b.target && a.flags == b.flags && a.id == b.id,
        a.title matches Some(title) ==> (b.title matches Some(other) && other@ == title@),
        a.title is None ==> b.title is None,
{
}

/// Choosing a standard action of the menu gives that action, whatever else is in the menu.
pub proof fn law_standard_action_is_found<C>(
    items: Seq<MenuItem<C>>,
    handles: Seq<usize>,
    action: StandardAction,
)
    requires
        handles.len() == items.len(),
        identifiers_fit(items, handles),
    ensures
        chosen(
            menu_commands(items, handles, items.len() as int),
            standard_entry(action).1 as u32,
        ) == MenuChoice::<C>::Edit(
            match action {
                StandardAction::Copy => Action::Copy,
                StandardAction::Cut => Action::Cut,
                StandardAction::Paste => Action::Paste,
                StandardAction::SelectAll => Action::Select(SelectionUnit::All),
            },
        ),
{
    let id = standard_entry(action).1 as u32;
    assert forall|k: int| 0 <= k < items.len() implies !#[trigger] claims(items, handles, k, id) by {
        lemma_base_grows(items, handles, 0, k);
        lemma_base_grows(items, handles, k, k);
    }
    lemma_later_items(items, handles, 0, items.len() as int, id);
}

} // verus!
