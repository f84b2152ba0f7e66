use vstd::prelude::*;
use crate::emulator::{Emulator, EmulatorV};
use crate::paths::file_stem_of;
use crate::registry::{Emulators, attach_at, menu_names};
use crate::rom::{Rom, RomV};

verus! {

/// The action label that opens the file dialog in a ROM menu.
pub const LOAD_ROM_TEXT: &'static str = "Load Rom";

/// The action label that returns from a ROM menu to the root menu.
pub const BACK_TEXT: &'static str = "Back";

pub open spec fn load_rom_label() -> Seq<char> {
    seq!['L', 'o', 'a', 'd', ' ', 'R', 'o', 'm']
}

pub open spec fn back_label() -> Seq<char> {
    seq!['B', 'a', 'c', 'k']
}

/// Which list is on screen.
#[derive(Clone, Copy, Debug, PartialEq, Eq, Structural)]
pub enum Screen {
    /// The emulators' names, then "Exit".
    RootMenu,
    /// The ROMs of the emulator at this index, then "Load Rom" and "Back".
    RomMenu(usize),
}

/// What a displayed item stands for, apart from its label.
#[derive(Clone, Copy, Debug, PartialEq, Eq, Structural)]
pub enum MenuItem {
    /// The emulator at this index of the registry.
    EmulatorEntry(usize),
    Exit,
    /// The ROM at this index of the shown emulator's ROMs.
    RomEntry(usize),
    LoadRom,
    Back,
}

/// An input from the user: an item activated by its position on screen, or
/// a request to quit.
#[derive(Clone, Copy, Debug, PartialEq, Eq, Structural)]
pub enum Event {
    Activate(usize),
    Cancel,
}

/// The end of a menu session: an emulator to launch with its loaded ROM,
/// or nothing to launch.
pub enum LoadedEmulator {
    Yes(Emulator),
    No,
}

/// What follows an event.
pub enum Outcome {
    /// Show this screen next.
    Show(Screen),
    /// Ask the user for a ROM file for the emulator at this index.
    ChooseRom(usize),
    /// The session is over.
    Finish(LoadedEmulator),
}

/// What follows an event, mathematically.
pub enum OutcomeV {
    Show(Screen),
    ChooseRom(usize),
    Launch(EmulatorV),
    Quit,
}

impl View for Outcome {
    type V = OutcomeV;

    open spec fn view(&self) -> OutcomeV {
        match self {
            Outcome::Show(s) => OutcomeV::Show(*s),
            Outcome::ChooseRom(i) => OutcomeV::ChooseRom(*i),
            Outcome::Finish(LoadedEmulator::Yes(e)) => OutcomeV::Launch(e@),
            Outcome::Finish(LoadedEmulator::No) => OutcomeV::Quit,
        }
    }
}

/// Whether `screen` can be shown over the registry `reg`.
pub open spec fn screen_valid(reg: Seq<EmulatorV>, screen: Screen) -> bool {
    match screen {
        Screen::RootMenu => true,
        Screen::RomMenu(idx) => idx < reg.len(),
    }
}

/// The items of `screen`, in display order.
pub open spec fn items_of(reg: Seq<EmulatorV>, screen: Screen) -> Seq<MenuItem> {
    match screen {
        Screen::RootMenu => Seq::new(reg.len(), |i: int| MenuItem::EmulatorEntry(i as usize)).push(
            MenuItem::Exit,
        ),
        Screen::RomMenu(idx) => Seq::new(
            reg[idx as int].roms.len(),
            |j: int| MenuItem::RomEntry(j as usize),
        ).push(MenuItem::LoadRom).push(MenuItem::Back),
    }
}

/// The labels of `screen`, in display order.
pub open spec fn labels_of(reg: Seq<EmulatorV>, screen: Screen) -> Seq<Seq<char>> {
    match screen {
        Screen::RootMenu => menu_names(reg),
        Screen::RomMenu(idx) => reg[idx as int].rom_labels().push(load_rom_label()).push(
            back_label(),
        ),
    }
}

/// Whether `event` can arrive while `screen` is shown.
pub open spec fn event_valid(reg: Seq<EmulatorV>, screen: Screen, event: Event) -> bool {
    match event {
        Event::Activate(pos) => pos < items_of(reg, screen).len(),
        Event::Cancel => true,
    }
}

/// What follows `event` on `screen` over the registry `reg`.
pub open spec fn next(reg: Seq<EmulatorV>, screen: Screen, event: Event) -> OutcomeV {
    match event {
        Event::Cancel => OutcomeV::Quit,
        Event::Activate(pos) => match items_of(reg, screen)[pos as int] {
            MenuItem::EmulatorEntry(i) => OutcomeV::Show(Screen::RomMenu(i)),
            MenuItem::Exit => OutcomeV::Quit,
            MenuItem::Back => OutcomeV::Show(Screen::RootMenu),
            MenuItem::LoadRom => match screen {
                Screen::RomMenu(idx) => OutcomeV::ChooseRom(idx),
                Screen::RootMenu => OutcomeV::Quit,
            },
            MenuItem::RomEntry(j) => match screen {
                Screen::RomMenu(idx) => OutcomeV::Launch(
                    reg[idx as int].attach(reg[idx as int].roms[j as int]),
                ),
                Screen::RootMenu => OutcomeV::Quit,
            },
        },
    }
}

/// What follows the file dialog in the ROM menu of the emulator at `idx`.
pub enum RomChoice {
    /// No ROM came of it: the menu stays as it is.
    Stay,
    /// The ROM was attached: `registry` is to be saved, and `emulator`, with
    /// the ROM loaded, launched.
    Attached { registry: Emulators, emulator: Emulator },
}

/// The items of `screen`, in display order.
pub fn menu_items(reg: &Emulators, screen: Screen) -> (r: Vec<MenuItem>)
    requires
        screen_valid(reg@, screen),
    ensures
        r@ == items_of(reg@, screen),
{
    let mut out: Vec<MenuItem> = Vec::new();
    let n: usize = match screen {
        Screen::RootMenu => reg.len(),
        Screen::RomMenu(idx) => reg.rom_count(idx),
    };
    let mut i: usize = 0;
    while i < n
        invariant
            i <= n,
            out@.len() == i,
            forall|j: int|
                0 <= j < i ==> #[trigger] out@[j] == match screen {
                    Screen::RootMenu => MenuItem::EmulatorEntry(j as usize),
                    Screen::RomMenu(_) => MenuItem::RomEntry(j as usize),
                },
        decreases n - i,
    {
        match screen {
            Screen::RootMenu => out.push(MenuItem::EmulatorEntry(i)),
            Screen::RomMenu(_) => out.push(MenuItem::RomEntry(i)),
        }
        i += 1;
    }
    match screen {
        Screen::RootMenu => out.push(MenuItem::Exit),
        Screen::RomMenu(_) => {
            out.push(MenuItem::LoadRom);
            out.push(MenuItem::Back);
        },
    }
    assert(out@ =~= items_of(reg@, screen));
    out
}

/// The labels of `screen`, in display order.
pub fn menu_labels(reg: &Emulators, screen: Screen) -> (r: Vec<&str>)
    requires
        screen_valid(reg@, screen),
    ensures
        r@.map_values(|s: &str| s@) == labels_of(reg@, screen),
        r@.len() == items_of(reg@, screen).len(),
{
    match screen {
        Screen::RootMenu => {
            let out = reg.emulator_names_to_string();
            assert(out@.map_values(|s: &str| s@).len() == out@.len());
            out
        },
        Screen::RomMenu(idx) => {
            let mut out = reg.rom_labels(idx);
            let ghost roms = out@.map_values(|s: &str| s@);
            let load: &str = LOAD_ROM_TEXT;
            let back: &str = BACK_TEXT;
            proof {
                reveal_strlit("Load Rom");
                reveal_strlit("Back");
            }
            assert(load@ =~= load_rom_label());
            assert(back@ =~= back_label());
            out.push(load);
            out.push(back);
            assert(out@.map_values(|s: &str| s@) =~= roms.push(load_rom_label()).push(back_label()));
            out
        },
    }
}

/// Decides what follows `event` on `screen`. The registry is only read: a
/// ROM chosen from the list is loaded into a copy of its emulator.
pub fn step(reg: &Emulators, screen: Screen, event: Event) -> (r: Outcome)
    requires
        reg.wf(),
        screen_valid(reg@, screen),
        event_valid(reg@, screen, event),
    ensures
        r@ == next(reg@, screen, event),
        r matches Outcome::Finish(LoadedEmulator::Yes(e)) ==> e@.loaded is Some && e@.wf(),
{
    match event {
        Event::Cancel => Outcome::Finish(LoadedEmulator::No),
        Event::Activate(pos) => match screen {
            Screen::RootMenu => {
                if pos < reg.len() {
                    Outcome::Show(Screen::RomMenu(pos))
                } else {
                    Outcome::Finish(LoadedEmulator::No)
                }
            },
            Screen::RomMenu(idx) => {
                let n = reg.rom_count(idx);
                if pos < n {
                    let mut e = reg.get_emulator_clone(idx);
                    let rom = e.rom_at_index(pos);
                    e.load_rom(rom);
                    Outcome::Finish(LoadedEmulator::Yes(e))
                } else if pos == n {
                    Outcome::ChooseRom(idx)
                } else {
                    Outcome::Show(Screen::RootMenu)
                }
            },
        },
    }
}

/// What the file dialog's answer `chosen` leads to in the ROM menu of the
/// emulator at `idx`. The ROM is attached to a copy of the registry, never
/// to `reg` itself, and the copy is handed back for saving.
pub fn attach_chosen(reg: &Emulators, idx: usize, chosen: Option<&str>) -> (r: RomChoice)
    requires
        reg.wf(),
        idx < reg@.len(),
    ensures
        match chosen {
            Some(path) => match file_stem_of(path@) {
                Some(stem) => {
                    let after = attach_at(reg@, idx as int, RomV { name: stem, path: path@ });
                    r matches RomChoice::Attached { registry, emulator } && registry@ == after
                        && registry.wf() && emulator@ == after[idx as int]
                        && emulator@.loaded is Some
                },
                None => r is Stay,
            },
            None => r is Stay,
        },
{
    match chosen {
        Some(path) => match Rom::new(path) {
            Some(rom) => {
                let mut registry = reg.clone();
                registry.load_rom_into_emulator(rom, idx);
                let emulator = registry.get_emulator_clone(idx);
                RomChoice::Attached { registry, emulator }
            },
            None => RomChoice::Stay,
        },
        None => RomChoice::Stay,
    }
}

} // verus!
