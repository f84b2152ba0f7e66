use vstd::prelude::*;
use crate::emulator::{EmulatorV, dedup_roms, roms_unique, has_rom_path, lemma_dedup_roms_unique_id, restored};
use crate::menu::{OutcomeV, Screen, Event, next, labels_of, back_label};
use crate::registry::{
    attach_at, dedup_names, exit_label, has_name, menu_names, names_of,
    registry_wf,
};
use crate::rom::RomV;

verus! {

/// How many times `x` occurs in `s`.
pub open spec fn count_of(s: Seq<Seq<char>>, x: Seq<char>) -> nat
    decreases s.len(),
{
    if s.len() == 0 {
        0
    } else {
        count_of(s.drop_last(), x) + if s.last() == x {
            1nat
        } else {
            0nat
        }
    }
}

proof fn lemma_count_none(s: Seq<Seq<char>>, x: Seq<char>)
    requires
        forall|j: int| 0 <= j < s.len() ==> #[trigger] s[j] != x,
    ensures
        count_of(s, x) == 0,
    decreases s.len(),
{
    if s.len() > 0 {
        assert forall|j: int| 0 <= j < s.drop_last().len() implies #[trigger] s.drop_last()[j] != x by {
            assert(s.drop_last()[j] == s[j]);
        }
        lemma_count_none(s.drop_last(), x);
    }
}

proof fn lemma_count_single(s: Seq<Seq<char>>, x: Seq<char>, k: int)
    requires
        0 <= k < s.len(),
        s[k] == x,
        forall|j: int| 0 <= j < s.len() && j != k ==> #[trigger] s[j] != x,
    ensures
        count_of(s, x) == 1,
    decreases s.len(),
{
    let init = s.drop_last();
    if k == s.len() - 1 {
        assert forall|j: int| 0 <= j < init.len() implies #[trigger] init[j] != x by {
            assert(init[j] == s[j]);
        }
        lemma_count_none(init, x);
    } else {
        assert forall|j: int| 0 <= j < init.len() && j != k implies #[trigger] init[j] != x by {
            assert(init[j] == s[j]);
        }
        lemma_count_single(init, x, k);
    }
}

/// Attaching a ROM leaves its label among the emulator's ROM labels exactly
/// once, and attaching the same ROM again changes nothing. This holds where
/// the ROMs already attached carry `rom`'s label exactly when they lie at
/// `rom`'s path.
pub proof fn lemma_attach_label_once(reg: Seq<EmulatorV>, i: int, rom: RomV)
    requires
        registry_wf(reg),
        0 <= i < reg.len(),
        forall|k: int| 0 <= k < reg[i].roms.len() ==>
            ((#[trigger] reg[i].roms[k]).name == rom.name <==> reg[i].roms[k].path == rom.path),
    ensures
        count_of(attach_at(reg, i, rom)[i].rom_labels(), rom.name) == 1,
        attach_at(attach_at(reg, i, rom), i, rom) == attach_at(reg, i, rom),
        registry_wf(attach_at(reg, i, rom)),
{
    let e = reg[i];
    let a = e.attach(rom);
    let labels = a.rom_labels();
    assert(attach_at(reg, i, rom)[i] == a);
    assert(reg[i].wf());
    assert(roms_unique(e.roms));
    if has_rom_path(e.roms, rom.path) {
        let k = choose|k: int| 0 <= k < e.roms.len() && #[trigger] e.roms[k].path == rom.path;
        assert(e.roms[k].name == rom.name);
        assert forall|j: int| 0 <= j < labels.len() && j != k implies #[trigger] labels[j] != rom.name by {
            assert(e.roms[j].path != e.roms[k].path) by {
                if j < k {
                    assert(e.roms[j].path != e.roms[k].path);
                } else {
                    assert(e.roms[k].path != e.roms[j].path);
                }
            }
            assert(labels[j] == e.roms[j].name);
        }
        lemma_count_single(labels, rom.name, k);
    } else {
        let n = e.roms.len() as int;
        assert forall|j: int| 0 <= j < labels.len() && j != n implies #[trigger] labels[j] != rom.name by {
            assert(labels[j] == e.roms[j].name);
            assert(e.roms[j].path != rom.path);
        }
        lemma_count_single(labels, rom.name, n);
        assert forall|x: int, y: int| 0 <= x < y < a.roms.len() implies
            #[trigger] a.roms[x].path != #[trigger] a.roms[y].path by {
            assert(a.roms[x].path == e.roms[x].path);
            if y < n {
                assert(a.roms[y].path == e.roms[y].path);
            }
        }
    }
    assert(has_rom_path(a.roms, rom.path)) by {
        if has_rom_path(e.roms, rom.path) {
            let k = choose|k: int| 0 <= k < e.roms.len() && #[trigger] e.roms[k].path == rom.path;
            assert(a.roms[k].path == rom.path);
        } else {
            assert(a.roms[e.roms.len() as int].path == rom.path);
        }
    }
    assert(attach_at(attach_at(reg, i, rom), i, rom) =~= attach_at(reg, i, rom));
    let after = attach_at(reg, i, rom);
    assert forall|x: int, y: int| 0 <= x < y < after.len() implies
        #[trigger] after[x].name != #[trigger] after[y].name by {
        assert(after[x].name == reg[x].name && after[y].name == reg[y].name);
    }
    assert forall|x: int| 0 <= x < after.len() implies #[trigger] after[x].wf() by {
        if x != i {
            assert(after[x] == reg[x]);
        }
    }
}

/// The root menu's labels are the emulators' names followed by "Exit": one
/// more than there are emulators, and "Exit" last.
pub proof fn lemma_menu_names_end_with_exit(reg: Seq<EmulatorV>)
    ensures
        menu_names(reg).len() == reg.len() + 1,
        menu_names(reg).last() == exit_label(),
        forall|k: int| 0 <= k < reg.len() ==> #[trigger] menu_names(reg)[k] == reg[k].name,
{
}

proof fn lemma_dedup_names_unique_id(s: Seq<EmulatorV>)
    requires
        forall|a: int, b: int| 0 <= a < b < s.len() ==> #[trigger] s[a].name != #[trigger] s[b].name,
    ensures
        dedup_names(s) == s,
    decreases s.len(),
{
    if s.len() > 0 {
        let init = s.drop_last();
        assert forall|a: int, b: int| 0 <= a < b < init.len() implies
            #[trigger] init[a].name != #[trigger] init[b].name by {
            assert(init[a] == s[a] && init[b] == s[b]);
        }
        lemma_dedup_names_unique_id(init);
        if has_name(init, s.last().name) {
            let k = choose|k: int| 0 <= k < init.len() && #[trigger] init[k].name == s.last().name;
            assert(s[k].name == s[s.len() - 1].name);
        }
        assert(init.push(s.last()) =~= s);
    }
}

/// Each emulator of `reg` as it reads back after being saved with its
/// name, path and ROMs.
pub open spec fn reread(reg: Seq<EmulatorV>) -> Seq<EmulatorV> {
    reg.map_values(|e: EmulatorV| restored(e.name, e.path, e.roms))
}

/// Saving a well-formed registry and reading it back gives the same
/// emulators, with the same names, paths and ROMs in the same order, and no
/// ROM loaded. What is saved of each emulator is its name, path and ROMs;
/// reading back restores each with `Emulator::from_saved` and gathers them
/// with `Emulators::new_from_vec`.
pub proof fn lemma_save_load_round_trip(reg: Seq<EmulatorV>)
    requires
        registry_wf(reg),
    ensures
        dedup_names(reread(reg)) == reg.map_values(|e: EmulatorV| e.unloaded()),
        dedup_names(reread(reg)).len() == reg.len(),
        forall|k: int| 0 <= k < reg.len() ==> {
            let e = #[trigger] dedup_names(reread(reg))[k];
            e.name == reg[k].name && e.path == reg[k].path && e.roms == reg[k].roms && e.loaded is None
        },
{
    let saved = reread(reg);
    let back = saved;
    let want = reg.map_values(|e: EmulatorV| e.unloaded());
    assert forall|k: int| 0 <= k < reg.len() implies #[trigger] back[k] == want[k] by {
        assert(reg[k].wf());
        lemma_dedup_roms_unique_id(reg[k].roms);
        assert(dedup_roms(reg[k].roms) == reg[k].roms);
    }
    assert(back =~= want);
    assert forall|a: int, b: int| 0 <= a < b < want.len() implies
        #[trigger] want[a].name != #[trigger] want[b].name by {
        assert(want[a].name == reg[a].name && want[b].name == reg[b].name);
    }
    lemma_dedup_names_unique_id(want);
}

/// On the root menu, activating the item after the emulators, which is
/// labelled "Exit", ends the session with nothing to launch, whatever the
/// registry holds.
pub proof fn lemma_exit_quits(reg: Seq<EmulatorV>)
    ensures
        labels_of(reg, Screen::RootMenu)[reg.len() as int] == exit_label(),
        reg.len() <= usize::MAX ==> next(reg, Screen::RootMenu, Event::Activate(reg.len() as usize))
            == OutcomeV::Quit,
{
}

/// In the ROM menu of an emulator, activating the last item, which is
/// labelled "Back", returns to the root menu. The step only reads the
/// registry, so nothing in it changes.
pub proof fn lemma_back_returns(reg: Seq<EmulatorV>, idx: usize)
    requires
        idx < reg.len(),
        reg[idx as int].roms.len() + 1 <= usize::MAX,
    ensures
        labels_of(reg, Screen::RomMenu(idx))[reg[idx as int].roms.len() + 1int] == back_label(),
        next(reg, Screen::RomMenu(idx), Event::Activate((reg[idx as int].roms.len() + 1) as usize))
            == OutcomeV::Show(Screen::RootMenu),
{
}

} // verus!
