//! The context menu: what it shows, and what a click on it means.

use crate::events::Notification;
use crate::placement::{
    move_window_to_monitor, spec_move_window_to_monitor, Monitor, Placement, RelativePosition,
};
use crate::text::{
    all_digits, chars_of, decimal_digits, is_digit, lemma_decimal_digits_shape,
    lemma_parse_reads_decimal, occurs_at, parse_unsigned, parse_usize, push_decimal, remove_all,
    same_chars, strip_all,
};
use vstd::prelude::*;

verus! {

/// An entry with a check mark.
#[derive(Clone, Debug, PartialEq, Eq)]
pub struct CheckEntry {
    pub id: String,
    pub label: String,
    pub checked: bool,
}

/// One line of the menu. Every entry that can be clicked is enabled.
#[derive(Clone, Debug, PartialEq, Eq)]
pub enum MenuEntry {
    Check(CheckEntry),
    Submenu { label: String, entries: Vec<CheckEntry> },
    Separator,
    Action { id: String, label: String },
}

/// What a `CheckEntry` holds, as values.
pub struct CheckEntryModel {
    pub id: Seq<char>,
    pub label: Seq<char>,
    pub checked: bool,
}

/// What a `MenuEntry` holds, as values.
pub enum MenuEntryModel {
    Check(CheckEntryModel),
    Submenu { label: Seq<char>, entries: Seq<CheckEntryModel> },
    Separator,
    Action { id: Seq<char>, label: Seq<char> },
}

impl View for CheckEntry {
    type V = CheckEntryModel;

    open spec fn view(&self) -> CheckEntryModel {
        CheckEntryModel { id: self.id@, label: self.label@, checked: self.checked }
    }
}

/// The entries of a list, as values.
pub open spec fn check_entries_model(entries: Seq<CheckEntry>) -> Seq<CheckEntryModel> {
    Seq::new(entries.len(), |i: int| entries[i]@)
}

impl View for MenuEntry {
    type V = MenuEntryModel;

    open spec fn view(&self) -> MenuEntryModel {
        match *self {
            MenuEntry::Check(entry) => MenuEntryModel::Check(entry@),
            MenuEntry::Submenu { label, entries } => MenuEntryModel::Submenu {
                label: label@,
                entries: check_entries_model(entries@),
            },
            MenuEntry::Separator => MenuEntryModel::Separator,
            MenuEntry::Action { id, label } => MenuEntryModel::Action { id: id@, label: label@ },
        }
    }
}

/// The lines of a menu, as values.
pub open spec fn menu_model(menu: Seq<MenuEntry>) -> Seq<MenuEntryModel> {
    Seq::new(menu.len(), |i: int| menu[i]@)
}

/// What a click on the menu asks for.
#[derive(Clone, Copy, Debug, PartialEq, Eq, Structural)]
pub enum MenuCommand {
    /// Move the overlay to the enumerated monitor of this index.
    SelectMonitor(usize),
    TogglePin,
    ToggleDrag,
    ToggleAutostart,
    /// End the process at once.
    Kill,
    /// The identifier is none of the menu's.
    Nothing,
}

/// What to do to the autostart registration.
#[derive(Clone, Copy, Debug, PartialEq, Eq, Structural)]
pub enum AutostartAction {
    Enable,
    Disable,
}

/// The prefix of the identifiers of the monitor entries.
pub open spec fn monitor_prefix() -> Seq<char> {
    "monitor_select_"@
}

/// The name under which a monitor is listed: its own, or, if it has none,
/// "Display" and its number, counted from one.
pub open spec fn screen_name(monitor: Monitor, index: int) -> Seq<char> {
    match monitor.name {
        Some(name) => name@,
        None => "Display "@ + decimal_digits((index + 1) as nat),
    }
}

/// The identifier of the entry of the monitor at `index`.
pub open spec fn screen_id(index: int) -> Seq<char> {
    monitor_prefix() + decimal_digits(index as nat)
}

/// The entry of the monitor at `index`. It is checked when the monitor is
/// listed under the name that the current monitor goes by.
pub open spec fn screen_entry(monitor: Monitor, index: int, current: Seq<char>) -> CheckEntryModel {
    CheckEntryModel {
        id: screen_id(index),
        label: "Screen "@ + decimal_digits((index + 1) as nat) + " ("@ + screen_name(monitor, index)
            + ")"@,
        checked: screen_name(monitor, index) == current,
    }
}

/// The name that the current monitor goes by; the empty name if there is no
/// current monitor or it has no name.
pub open spec fn current_label(current: Option<Monitor>) -> Seq<char> {
    match current {
        Some(m) => m.label(),
        None => Seq::<char>::empty(),
    }
}

/// The context menu: the two toggles of the window, the submenu of the
/// monitors, a separator, the autostart toggle, and the action that ends the
/// process. An autostart state that could not be read counts as "off".
pub open spec fn spec_context_menu(
    is_pinned: bool,
    is_draggable: bool,
    autostart: Option<bool>,
    monitors: Seq<Monitor>,
    current: Option<Monitor>,
) -> Seq<MenuEntryModel> {
    seq![
        MenuEntryModel::Check(
            CheckEntryModel { id: "toggle_pin"@, label: "Always on Top"@, checked: is_pinned },
        ),
        MenuEntryModel::Check(
            CheckEntryModel { id: "toggle_drag"@, label: "Allow Drag"@, checked: is_draggable },
        ),
        MenuEntryModel::Submenu {
            label: "Move to Screen"@,
            entries: Seq::new(
                monitors.len(),
                |i: int| screen_entry(monitors[i], i, current_label(current)),
            ),
        },
        MenuEntryModel::Separator,
        MenuEntryModel::Check(
            CheckEntryModel {
                id: "toggle_autostart"@,
                label: "Run on Startup"@,
                checked: autostart == Some(true),
            },
        ),
        MenuEntryModel::Action { id: "kill_app"@, label: "Kill Widget"@ },
    ]
}

fn check_entry(id: &str, label: &str, checked: bool) -> (entry: CheckEntry)
    ensures
        entry@ == (CheckEntryModel { id: id@, label: label@, checked }),
{
    CheckEntry { id: String::from_str(id), label: String::from_str(label), checked }
}

fn build_screen_entry(monitor: &Monitor, index: usize, current: &String) -> (entry: CheckEntry)
    requires
        index < usize::MAX,
    ensures
        entry@ == screen_entry(*monitor, index as int, current@),
{
    let number: u64 = (index + 1) as u64;
    let name: String = match &monitor.name {
        Some(own) => own.clone(),
        None => {
            let mut fallback: String = String::from_str("Display ");
            push_decimal(&mut fallback, number);
            fallback
        },
    };
    let checked: bool = name == *current;
    let mut id: String = String::from_str("monitor_select_");
    push_decimal(&mut id, index as u64);
    let mut label: String = String::from_str("Screen ");
    push_decimal(&mut label, number);
    label.append(" (");
    label.append(name.as_str());
    label.append(")");
    CheckEntry { id, label, checked }
}

/// Builds the context menu for the given state.
pub fn show_context_menu(
    is_pinned: bool,
    is_draggable: bool,
    autostart: Option<bool>,
    monitors: &Vec<Monitor>,
    current: Option<&Monitor>,
) -> (menu: Vec<MenuEntry>)
    ensures
        menu_model(menu@) == spec_context_menu(
            is_pinned,
            is_draggable,
            autostart,
            monitors@,
            match current {
                Some(m) => Some(*m),
                None => None,
            },
        ),
{
    let ghost current_value: Option<Monitor> = match current {
        Some(m) => Some(*m),
        None => None,
    };
    let current_name: String = match current {
        Some(m) => m.label_text(),
        None => String::new(),
    };
    let mut screens: Vec<CheckEntry> = Vec::new();
    let mut i: usize = 0;
    while i < monitors.len()
        invariant
            i <= monitors.len(),
            screens.len() == i,
            current_name@ == current_label(current_value),
            forall|j: int|
                0 <= j < i ==> (#[trigger] screens@[j])@ == screen_entry(
                    monitors@[j],
                    j,
                    current_name@,
                ),
        decreases monitors.len() - i,
    {
        screens.push(build_screen_entry(&monitors[i], i, &current_name));
        i = i + 1;
    }
    let is_autostart: bool = match autostart {
        Some(enabled) => enabled,
        None => false,
    };
    let mut menu: Vec<MenuEntry> = Vec::new();
    menu.push(MenuEntry::Check(check_entry("toggle_pin", "Always on Top", is_pinned)));
    menu.push(MenuEntry::Check(check_entry("toggle_drag", "Allow Drag", is_draggable)));
    menu.push(MenuEntry::Submenu { label: String::from_str("Move to Screen"), entries: screens });
    menu.push(MenuEntry::Separator);
    menu.push(MenuEntry::Check(check_entry("toggle_autostart", "Run on Startup", is_autostart)));
    menu.push(
        MenuEntry::Action {
            id: String::from_str("kill_app"),
            label: String::from_str("Kill Widget"),
        },
    );
    proof {
        let want = spec_context_menu(is_pinned, is_draggable, autostart, monitors@, current_value);
        let have = menu_model(menu@);
        assert(have.len() == 6);
        assert(check_entries_model(screens@) =~= Seq::new(
            monitors@.len(),
            |i: int| screen_entry(monitors@[i], i, current_label(current_value)),
        ));
        assert(have[0] == want[0]);
        assert(have[1] == want[1]);
        assert(have[2] == want[2]);
        assert(have[3] == want[3]);
        assert(have[4] == want[4]);
        assert(have[5] == want[5]);
        assert(have =~= want);
    }
    menu
}

/// What a click on the entry with the given identifier asks for.
///
/// An identifier that begins with the monitor prefix stands for a monitor:
/// the prefix is taken out wherever it occurs, and what is left is read as
/// the monitor's index. If it does not read as a number, the click asks for
/// nothing. The other identifiers are those of the menu's own entries.
pub open spec fn spec_menu_command(id: Seq<char>) -> MenuCommand {
    if monitor_prefix().is_prefix_of(id) {
        match parse_unsigned(strip_all(id, monitor_prefix()), usize::MAX as nat) {
            Some(index) => MenuCommand::SelectMonitor(index as usize),
            None => MenuCommand::Nothing,
        }
    } else if id == "toggle_pin"@ {
        MenuCommand::TogglePin
    } else if id == "toggle_drag"@ {
        MenuCommand::ToggleDrag
    } else if id == "toggle_autostart"@ {
        MenuCommand::ToggleAutostart
    } else if id == "kill_app"@ {
        MenuCommand::Kill
    } else {
        MenuCommand::Nothing
    }
}

/// Reads the identifier of a clicked entry.
pub fn menu_command(id: &str) -> (command: MenuCommand)
    ensures
        command == spec_menu_command(id@),
{
    let chars: Vec<char> = chars_of(id);
    let prefix: Vec<char> = chars_of("monitor_select_");
    assert(chars@.skip(0) =~= chars@);
    if occurs_at(&chars, 0, &prefix) {
        let rest: Vec<char> = remove_all(&chars, &prefix);
        return match parse_usize(&rest) {
            Some(index) => MenuCommand::SelectMonitor(index),
            None => MenuCommand::Nothing,
        };
    }
    if same_chars(&chars, &chars_of("toggle_pin")) {
        MenuCommand::TogglePin
    } else if same_chars(&chars, &chars_of("toggle_drag")) {
        MenuCommand::ToggleDrag
    } else if same_chars(&chars, &chars_of("toggle_autostart")) {
        MenuCommand::ToggleAutostart
    } else if same_chars(&chars, &chars_of("kill_app")) {
        MenuCommand::Kill
    } else {
        MenuCommand::Nothing
    }
}

/// The notification that a command sends to the user interface by itself:
/// the two window toggles are decided there.
pub fn command_notification(command: MenuCommand) -> (n: Option<Notification>)
    ensures
        n == (match command {
            MenuCommand::TogglePin => Some(Notification::MenuTogglePin),
            MenuCommand::ToggleDrag => Some(Notification::MenuToggleDrag),
            _ => None,
        }),
{
    match command {
        MenuCommand::TogglePin => Some(Notification::MenuTogglePin),
        MenuCommand::ToggleDrag => Some(Notification::MenuToggleDrag),
        _ => None,
    }
}

/// Flipping autostart: an enabled registration is disabled; one that is
/// disabled, or whose state could not be read, is enabled.
pub fn autostart_switch(enabled: Option<bool>) -> (action: AutostartAction)
    ensures
        action == (if enabled == Some(true) {
            AutostartAction::Disable
        } else {
            AutostartAction::Enable
        }),
{
    match enabled {
        Some(true) => AutostartAction::Disable,
        _ => AutostartAction::Enable,
    }
}

/// Moving the overlay to the monitor at `index`: where it goes, and the
/// notification that names the monitor. The overlay keeps the relative
/// position that it had on its monitor; if that is not known, it goes to the
/// top right corner. An index beyond the enumerated monitors does nothing.
pub fn select_monitor(
    monitors: &Vec<Monitor>,
    index: usize,
    relative: Option<RelativePosition>,
) -> (r: Option<(Placement, Notification)>)
    requires
        forall|i: int| 0 <= i < monitors.len() ==> (#[trigger] monitors[i]).wf(),
        relative matches Some(at) ==> at.wf(),
    ensures
        r is Some <==> index < monitors.len(),
        r matches Some((placement, notification)) ==> {
            &&& placement == spec_move_window_to_monitor(monitors[index as int], relative)
            &&& notification matches Notification::MonitorChanged { name }
            &&& name@ == monitors[index as int].label()
        },
{
    if index < monitors.len() {
        assert(monitors[index as int].wf());
        let target: &Monitor = &monitors[index];
        let placement: Placement = move_window_to_monitor(target, relative);
        Some((placement, Notification::MonitorChanged { name: target.label_text() }))
    } else {
        None
    }
}

/// A numeral holds no occurrence of the monitor prefix, so taking the prefix
/// out leaves it as it is.
proof fn lemma_strip_keeps_digits(s: Seq<char>)
    requires
        all_digits(s),
    ensures
        strip_all(s, monitor_prefix()) == s,
    decreases s.len(),
{
    reveal_strlit("monitor_select_");
    let pat = monitor_prefix();
    if s.len() > 0 {
        assert(is_digit(s[0]));
        assert(pat[0] == 'm');
        if pat.is_prefix_of(s) {
            assert(s.subrange(0, pat.len() as int)[0] == pat[0]);
        }
        let rest = s.skip(1);
        assert(all_digits(rest)) by {
            assert forall|i: int| 0 <= i < rest.len() implies is_digit(#[trigger] rest[i]) by {
                assert(rest[i] == s[i + 1]);
            }
        }
        lemma_strip_keeps_digits(rest);
        assert(seq![s[0]] + rest =~= s);
    }
}

/// A click on the entry that the menu lists for the monitor at `index` asks
/// for that monitor.
pub proof fn lemma_screen_id_selects(index: usize)
    ensures
        spec_menu_command(screen_id(index as int)) == MenuCommand::SelectMonitor(index),
{
    reveal_strlit("monitor_select_");
    let pat = monitor_prefix();
    let digits = decimal_digits(index as nat);
    let id = screen_id(index as int);
    lemma_decimal_digits_shape(index as nat);
    assert(id.subrange(0, pat.len() as int) =~= pat);
    assert(pat.is_prefix_of(id));
    assert(id.skip(pat.len() as int) =~= digits);
    lemma_strip_keeps_digits(digits);
    assert(strip_all(id, pat) == digits);
    lemma_parse_reads_decimal(index as nat, usize::MAX as nat);
}

} // verus!
