//! A launcher's core: the registry of emulators and the ROM files attached to
//! them, and the menu state machine that navigates it.

mod emulator;
mod hit;
mod laws;
mod menu;
mod paths;
mod registry;
mod rom;
mod store;

pub use emulator::{
    dedup_roms, fresh_emulator, has_rom_path, lemma_dedup_roms_unique,
    lemma_dedup_roms_unique_id, restored, roms_unique, Emulator, EmulatorV,
};
pub use paths::{
    append_to_exec_dir, dialog_path, file_scheme, file_stem_of, joined_path, replaced, same_text,
};
pub use registry::{
    attach_at, dedup_names, exit_label, fresh_registry, has_name, menu_names, names_of, names_unique,
    registry_wf, Emulators, EXIT_TEXT,
};
pub use rom::{Rom, RomV};
pub use menu::{
    attach_chosen, back_label, event_valid, items_of, labels_of, load_rom_label, menu_items,
    menu_labels, next, screen_valid, step, Event, LoadedEmulator, MenuItem, Outcome, OutcomeV,
    RomChoice, Screen, BACK_TEXT, LOAD_ROM_TEXT,
};
pub use hit::{first_hit, region_contains, Region};
pub use store::{registry_or_default, saved_text, LoadError};
pub use laws::{
    count_of, reread, lemma_attach_label_once, lemma_back_returns, lemma_exit_quits,
    lemma_menu_names_end_with_exit, lemma_save_load_round_trip,
};
