use lambda_blue::{
    append_to_exec_dir, attach_chosen, dialog_path, first_hit, menu_items, menu_labels, registry_or_default,
    saved_text, step, Emulator, Emulators, Event, LoadError, LoadedEmulator, MenuItem, Outcome,
    Region, Rom, RomChoice, Screen,
};

const DIR: &str = "/opt/launcher";

fn chip8_registry() -> Emulators {
    Emulators::from_strings(vec!["CHIP8"], DIR)
}

fn with_pong() -> Emulators {
    match attach_chosen(&chip8_registry(), 0, Some("/home/user/pong.ch8")) {
        RomChoice::Attached { registry, .. } => registry,
        RomChoice::Stay => panic!("the ROM was not attached"),
    }
}

fn reread(reg: &Emulators) -> Emulators {
    let saved: Vec<Emulator> = reg
        .emulators()
        .iter()
        .map(|e| {
            let roms: Vec<Rom> = e
                .roms()
                .iter()
                .map(|r| Rom::from_saved(r.name().to_string(), r.get_path().to_string()))
                .collect();
            Emulator::from_saved(e.name().to_string(), e.get_path().to_string(), roms)
        })
        .collect();
    Emulators::new_from_vec(saved)
}

#[test]
fn rom_is_named_after_file_stem() {
    let rom = Rom::new("/home/user/pong.ch8").unwrap();
    assert_eq!(rom.name(), "pong");
    assert_eq!(rom.get_path(), "/home/user/pong.ch8");
}

#[test]
fn rom_without_file_stem_is_none() {
    assert!(Rom::new("/").is_none());
}

#[test]
fn roms_are_equal_by_path() {
    let a = Rom::from_saved("pong".to_string(), "/a/pong.ch8".to_string());
    let b = Rom::from_saved("other".to_string(), "/a/pong.ch8".to_string());
    let c = Rom::from_saved("pong".to_string(), "/b/pong.ch8".to_string());
    assert!(a == b);
    assert!(a != c);
}

#[test]
fn exec_dir_join() {
    assert_eq!(append_to_exec_dir(DIR, "CHIP8"), "/opt/launcher/CHIP8");
}

#[test]
fn emulator_new_names_and_locates() {
    let e = Emulator::new("CHIP8", DIR).unwrap();
    assert_eq!(e.name(), "CHIP8");
    assert_eq!(e.get_path(), "/opt/launcher/CHIP8");
    assert!(e.roms().is_empty());
    assert!(e.loaded_rom().is_none());
}

#[test]
fn empty_saved_state_falls_back_to_known_list() {
    assert_eq!(saved_text(Some("")), Err(LoadError::EmptyFile));
    let reg = registry_or_default(Err(LoadError::EmptyFile), vec!["CHIP8"], DIR);
    assert_eq!(reg.emulator_names_to_string(), vec!["CHIP8", "Exit"]);
}

#[test]
fn unreadable_and_corrupt_state_fall_back() {
    assert_eq!(saved_text(None), Err(LoadError::ReadError));
    assert_eq!(saved_text(Some("[]")), Ok("[]"));
    let reg = registry_or_default(Err(LoadError::ParseError), vec!["CHIP8"], DIR);
    assert_eq!(reg.emulator_names_to_string(), vec!["CHIP8", "Exit"]);
    let kept = registry_or_default(Ok(with_pong()), vec!["CHIP8"], DIR);
    assert_eq!(kept.rom_labels(0), vec!["pong"]);
}

#[test]
fn from_strings_keeps_first_of_each_name() {
    let reg = Emulators::from_strings(vec!["CHIP8", "/x/NES.bin", "CHIP8", "/"], DIR);
    assert_eq!(reg.emulator_names_to_string(), vec!["CHIP8", "NES", "Exit"]);
    assert_eq!(reg.len(), 2);
}

#[test]
fn menu_names_end_with_exit() {
    let empty = Emulators::from_strings(vec![], DIR);
    assert_eq!(empty.emulator_names_to_string(), vec!["Exit"]);
    let reg = Emulators::from_strings(vec!["A", "B", "C"], DIR);
    let names = reg.emulator_names_to_string();
    assert_eq!(names.len(), reg.len() + 1);
    assert_eq!(names.last(), Some(&"Exit"));
}

#[test]
fn activating_emulator_opens_its_rom_menu() {
    let reg = chip8_registry();
    assert!(matches!(
        step(&reg, Screen::RootMenu, Event::Activate(0)),
        Outcome::Show(Screen::RomMenu(0))
    ));
    assert_eq!(menu_labels(&reg, Screen::RomMenu(0)), vec!["Load Rom", "Back"]);
    assert_eq!(
        menu_items(&reg, Screen::RomMenu(0)),
        vec![MenuItem::LoadRom, MenuItem::Back]
    );
}

#[test]
fn load_rom_attaches_saves_and_launches() {
    let reg = chip8_registry();
    assert!(matches!(
        step(&reg, Screen::RomMenu(0), Event::Activate(0)),
        Outcome::ChooseRom(0)
    ));
    match attach_chosen(&reg, 0, Some("/home/user/pong.ch8")) {
        RomChoice::Attached { registry, emulator } => {
            let roms = registry.get_emulator_clone(0).roms().to_vec();
            assert_eq!(roms.len(), 1);
            assert_eq!(roms[0].name(), "pong");
            assert_eq!(roms[0].get_path(), "/home/user/pong.ch8");
            assert_eq!(emulator.name(), "CHIP8");
            let loaded = emulator.loaded_rom().unwrap();
            assert_eq!(loaded.name(), "pong");
            assert_eq!(emulator.get_rom_path(), "/home/user/pong.ch8");
        }
        RomChoice::Stay => panic!("the ROM was not attached"),
    }
    // The registry handed in is a value the step copied, not changed.
    assert!(reg.rom_labels(0).is_empty());
}

#[test]
fn cancelled_file_choice_stays() {
    let reg = chip8_registry();
    assert!(matches!(attach_chosen(&reg, 0, None), RomChoice::Stay));
    assert!(matches!(attach_chosen(&reg, 0, Some("/")), RomChoice::Stay));
}

#[test]
fn attached_rom_launches_without_dialog() {
    let reg = with_pong();
    assert_eq!(menu_labels(&reg, Screen::RomMenu(0)), vec!["pong", "Load Rom", "Back"]);
    match step(&reg, Screen::RomMenu(0), Event::Activate(0)) {
        Outcome::Finish(LoadedEmulator::Yes(e)) => {
            assert_eq!(e.name(), "CHIP8");
            assert_eq!(e.get_rom_path(), "/home/user/pong.ch8");
            assert_eq!(e.get_path(), "/opt/launcher/CHIP8");
        }
        _ => panic!("expected a launch"),
    }
    assert_eq!(reg.rom_labels(0), vec!["pong"]);
}

#[test]
fn attaching_twice_keeps_one_label() {
    let mut reg = chip8_registry();
    let rom = Rom::new("/home/user/pong.ch8").unwrap();
    reg.load_rom_into_emulator(rom.clone(), 0);
    reg.load_rom_into_emulator(rom, 0);
    assert_eq!(reg.rom_labels(0), vec!["pong"]);
    let e = reg.get_emulator_clone(0);
    assert_eq!(e.roms_as_str(), vec!["pong"]);
    assert_eq!(e.rom_at_index(0).get_path(), "/home/user/pong.ch8");
}

#[test]
fn load_rom_updates_loaded_even_when_present() {
    let mut e = Emulator::new("CHIP8", DIR).unwrap();
    e.load_rom(Rom::new("/a/pong.ch8").unwrap());
    e.load_rom(Rom::new("/a/tetris.ch8").unwrap());
    e.load_rom(Rom::new("/a/pong.ch8").unwrap());
    assert_eq!(e.roms_as_str(), vec!["pong", "tetris"]);
    assert_eq!(e.get_rom_path(), "/a/pong.ch8");
}

#[test]
fn exit_item_quits() {
    let reg = Emulators::from_strings(vec!["A", "B"], DIR);
    assert_eq!(menu_labels(&reg, Screen::RootMenu)[2], "Exit");
    assert!(matches!(
        step(&reg, Screen::RootMenu, Event::Activate(2)),
        Outcome::Finish(LoadedEmulator::No)
    ));
    let empty = Emulators::from_strings(vec![], DIR);
    assert!(matches!(
        step(&empty, Screen::RootMenu, Event::Activate(0)),
        Outcome::Finish(LoadedEmulator::No)
    ));
}

#[test]
fn back_returns_to_root() {
    let reg = with_pong();
    assert_eq!(menu_labels(&reg, Screen::RomMenu(0))[2], "Back");
    assert!(matches!(
        step(&reg, Screen::RomMenu(0), Event::Activate(2)),
        Outcome::Show(Screen::RootMenu)
    ));
    assert_eq!(reg.rom_labels(0), vec!["pong"]);
}

#[test]
fn cancel_quits_anywhere() {
    let reg = with_pong();
    assert!(matches!(
        step(&reg, Screen::RootMenu, Event::Cancel),
        Outcome::Finish(LoadedEmulator::No)
    ));
    assert!(matches!(
        step(&reg, Screen::RomMenu(0), Event::Cancel),
        Outcome::Finish(LoadedEmulator::No)
    ));
}

#[test]
fn save_then_load_keeps_names_and_roms() {
    let mut reg = Emulators::from_strings(vec!["CHIP8", "NES"], DIR);
    reg.load_rom_into_emulator(Rom::new("/home/user/pong.ch8").unwrap(), 0);
    reg.load_rom_into_emulator(Rom::new("/home/user/tetris.ch8").unwrap(), 0);
    reg.load_rom_into_emulator(Rom::new("/games/mario.nes").unwrap(), 1);
    let back = reread(&reg);
    assert_eq!(back.emulator_names_to_string(), vec!["CHIP8", "NES", "Exit"]);
    assert_eq!(back.rom_labels(0), vec!["pong", "tetris"]);
    assert_eq!(back.rom_labels(1), vec!["mario"]);
    assert_eq!(back.get_emulator_clone(1).get_path(), "/opt/launcher/NES");
    for e in back.emulators() {
        assert!(e.loaded_rom().is_none());
    }
}

#[test]
fn restoring_drops_repeats() {
    let roms = vec![
        Rom::from_saved("pong".to_string(), "/a/pong.ch8".to_string()),
        Rom::from_saved("pong".to_string(), "/a/pong.ch8".to_string()),
    ];
    let a = Emulator::from_saved("CHIP8".to_string(), "/x/CHIP8".to_string(), roms);
    let b = Emulator::from_saved("CHIP8".to_string(), "/y/CHIP8".to_string(), vec![]);
    let reg = Emulators::new_from_vec(vec![a, b]);
    assert_eq!(reg.len(), 1);
    assert_eq!(reg.rom_labels(0), vec!["pong"]);
    assert_eq!(reg.get_emulator_clone(0).get_path(), "/x/CHIP8");
}

#[test]
fn index_of_emulator_by_name() {
    let reg = Emulators::from_strings(vec!["A", "B"], DIR);
    let b = reg.get_emulator_clone(1);
    assert_eq!(reg.emulator_index(&b), 1);
    assert_eq!(reg.emulator_index(&reg.get_emulator_clone(0)), 0);
    assert_eq!(reg.find("A"), Some(0));
    assert_eq!(reg.find("Z"), None);
}

#[test]
fn registry_from_vec_keeps_emulators_as_given() {
    let mut a = Emulator::new("CHIP8", DIR).unwrap();
    a.load_rom(Rom::new("/home/user/pong.ch8").unwrap());
    let b = Emulator::new("NES", DIR).unwrap();
    let reg = Emulators::new_from_vec(vec![a, b]);
    assert_eq!(reg.emulator_names_to_string(), vec!["CHIP8", "NES", "Exit"]);
    let first = reg.get_emulator_clone(0);
    assert_eq!(first.get_rom_path(), "/home/user/pong.ch8");
    assert_eq!(first.roms_as_str(), vec!["pong"]);
    assert!(reg.get_emulator_clone(1).loaded_rom().is_none());
}

#[test]
fn first_hit_picks_first_overlapping_region() {
    let regions = vec![
        Region { x: 0, y: 0, w: 100, h: 80 },
        Region { x: 0, y: 40, w: 100, h: 80 },
    ];
    assert_eq!(first_hit(&regions, 10, 50), Some(0));
    assert_eq!(first_hit(&regions, 10, 80), Some(1));
    assert_eq!(first_hit(&regions, 100, 10), None);
    assert_eq!(first_hit(&regions, -1, 10), None);
    assert_eq!(first_hit(&vec![], 0, 0), None);
}

#[test]
fn dialog_answer_loses_file_scheme() {
    assert_eq!(dialog_path("file:///home/user/pong.ch8"), "/home/user/pong.ch8");
    assert_eq!(dialog_path("/home/user/pong.ch8"), "/home/user/pong.ch8");
    assert_eq!(dialog_path("file://a/file://b"), "a/b");
}
