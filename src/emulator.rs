use vstd::prelude::*;
use crate::paths::{file_stem, file_stem_of, joined_path, append_to_exec_dir};
use crate::rom::{Rom, RomV};

verus! {

/// What an emulator is, mathematically.
pub struct EmulatorV {
    pub name: Seq<char>,
    /// Location of the emulator's executable.
    pub path: Seq<char>,
    /// Attached ROMs, in the order they were attached.
    pub roms: Seq<RomV>,
    /// The ROM chosen in this session; never saved.
    pub loaded: Option<RomV>,
}

/// Whether some ROM of `roms` lies at `path`.
pub open spec fn has_rom_path(roms: Seq<RomV>, path: Seq<char>) -> bool {
    exists|k: int| 0 <= k < roms.len() && #[trigger] roms[k].path == path
}

/// No two ROMs of `roms` lie at the same path.
pub open spec fn roms_unique(roms: Seq<RomV>) -> bool {
    forall|a: int, b: int| 0 <= a < b < roms.len() ==> #[trigger] roms[a].path != #[trigger] roms[b].path
}

/// `roms` with every ROM dropped whose path an earlier one already has.
pub open spec fn dedup_roms(roms: Seq<RomV>) -> Seq<RomV>
    decreases roms.len(),
{
    if roms.len() == 0 {
        roms
    } else {
        let d = dedup_roms(roms.drop_last());
        if has_rom_path(d, roms.last().path) {
            d
        } else {
            d.push(roms.last())
        }
    }
}

/// What an emulator saved with `name`, `path` and `roms` is once read back:
/// repeated ROM paths dropped, no ROM loaded.
pub open spec fn restored(name: Seq<char>, path: Seq<char>, roms: Seq<RomV>) -> EmulatorV {
    EmulatorV { name, path, roms: dedup_roms(roms), loaded: None }
}

/// An emulator as first registered: named `name`, its executable named
/// `name` in `exec_dir`, no ROMs.
pub open spec fn fresh_emulator(name: Seq<char>, exec_dir: Seq<char>) -> EmulatorV {
    EmulatorV { name, path: joined_path(exec_dir, name), roms: Seq::empty(), loaded: None }
}

impl EmulatorV {
    pub open spec fn wf(self) -> bool {
        roms_unique(self.roms)
    }

    /// `rom` added to the ROMs unless it is there already, and made the loaded ROM.
    pub open spec fn attach(self, rom: RomV) -> EmulatorV {
        EmulatorV {
            name: self.name,
            path: self.path,
            roms: if has_rom_path(self.roms, rom.path) {
                self.roms
            } else {
                self.roms.push(rom)
            },
            loaded: Some(rom),
        }
    }

    /// The same emulator with the session's loaded ROM forgotten.
    pub open spec fn unloaded(self) -> EmulatorV {
        EmulatorV { name: self.name, path: self.path, roms: self.roms, loaded: None }
    }

    /// The labels of the attached ROMs, in attach order.
    pub open spec fn rom_labels(self) -> Seq<Seq<char>> {
        self.roms.map_values(|r: RomV| r.name)
    }
}

pub proof fn lemma_dedup_roms_unique(roms: Seq<RomV>)
    ensures
        roms_unique(dedup_roms(roms)),
        forall|p: Seq<char>| has_rom_path(dedup_roms(roms), p) <==> has_rom_path(roms, p),
    decreases roms.len(),
{
    if roms.len() > 0 {
        let d = dedup_roms(roms.drop_last());
        lemma_dedup_roms_unique(roms.drop_last());
        let dr = dedup_roms(roms);
        assert forall|p: Seq<char>| has_rom_path(roms, p) implies has_rom_path(dr, p) by {
            let k = choose|k: int| 0 <= k < roms.len() && #[trigger] roms[k].path == p;
            if k < roms.len() - 1 {
                assert(roms.drop_last()[k].path == p);
                assert(has_rom_path(roms.drop_last(), p));
                assert(has_rom_path(d, p));
                let j = choose|j: int| 0 <= j < d.len() && #[trigger] d[j].path == p;
                assert(dr[j].path == p);
            } else if has_rom_path(d, p) {
                let j = choose|j: int| 0 <= j < d.len() && #[trigger] d[j].path == p;
                assert(dr[j].path == p);
            } else {
                assert(dr[dr.len() - 1].path == p);
            }
        }
        assert forall|p: Seq<char>| has_rom_path(dr, p) implies has_rom_path(roms, p) by {
            let k = choose|k: int| 0 <= k < dr.len() && #[trigger] dr[k].path == p;
            if k < d.len() {
                assert(d[k].path == p);
                assert(has_rom_path(d, p));
                assert(has_rom_path(roms.drop_last(), p));
                let j = choose|j: int| 0 <= j < roms.drop_last().len() && #[trigger] roms.drop_last()[j].path == p;
                assert(roms[j].path == p);
            } else {
                assert(roms[roms.len() - 1].path == p);
            }
        }
        if !has_rom_path(d, roms.last().path) {
            assert forall|a: int, b: int| 0 <= a < b < d.push(roms.last()).len() implies
                #[trigger] d.push(roms.last())[a].path != #[trigger] d.push(roms.last())[b].path by {
                if b == d.len() {
                    assert(d[a].path == d.push(roms.last())[a].path);
                }
            }
        }
    }
}

/// Without two ROMs at one path, dropping repeated paths changes nothing.
pub proof fn lemma_dedup_roms_unique_id(roms: Seq<RomV>)
    requires
        roms_unique(roms),
    ensures
        dedup_roms(roms) == roms,
    decreases roms.len(),
{
    if roms.len() > 0 {
        let init = roms.drop_last();
        assert(roms_unique(init)) by {
            assert forall|a: int, b: int| 0 <= a < b < init.len() implies
                #[trigger] init[a].path != #[trigger] init[b].path by {
                assert(init[a] == roms[a] && init[b] == roms[b]);
            }
        }
        lemma_dedup_roms_unique_id(init);
        if has_rom_path(init, roms.last().path) {
            let k = choose|k: int| 0 <= k < init.len() && #[trigger] init[k].path == roms.last().path;
            assert(roms[k].path == roms[roms.len() - 1].path);
        }
        assert(init.push(roms.last()) =~= roms);
    }
}

/// A launchable emulator: its name, its executable, the ROMs attached to it,
/// and the ROM chosen for this session.
pub struct Emulator {
    name: String,
    path: String,
    roms: Vec<Rom>,
    loaded_rom: Option<Rom>,
}

impl View for Emulator {
    type V = EmulatorV;

    closed spec fn view(&self) -> EmulatorV {
        EmulatorV {
            name: self.name@,
            path: self.path@,
            roms: self.roms@.map_values(|r: Rom| r@),
            loaded: match self.loaded_rom {
                Some(r) => Some(r@),
                None => None,
            },
        }
    }
}

fn clone_rom_vec(v: &Vec<Rom>) -> (r: Vec<Rom>)
    ensures
        r@ == v@,
{
    let r = v.clone();
    assert forall|i: int| 0 <= i < v.len() implies r@[i] == v@[i] by {
        assert(cloned::<Rom>(v[i], r[i]));
    }
    assert(r@ =~= v@);
    r
}

fn clone_rom_option(o: &Option<Rom>) -> (r: Option<Rom>)
    ensures
        r == *o,
{
    match o {
        Some(rom) => Some(rom.clone()),
        None => None,
    }
}

impl Clone for Emulator {
    fn clone(&self) -> (r: Self)
        ensures
            r@ == self@,
    {
        Emulator {
            name: self.name.clone(),
            path: self.path.clone(),
            roms: clone_rom_vec(&self.roms),
            loaded_rom: clone_rom_option(&self.loaded_rom),
        }
    }
}

impl Emulator {
    /// A new emulator for the program at `path`: named after the path's file
    /// stem, its executable that name in `exec_dir`, with no ROMs. `None`
    /// where the path has no file stem.
    pub fn new(path: &str, exec_dir: &str) -> (r: Option<Emulator>)
        ensures
            match file_stem_of(path@) {
                Some(stem) => r matches Some(e) && e@ == fresh_emulator(stem, exec_dir@),
                None => r is None,
            },
            r matches Some(e) ==> e@.wf(),
    {
        match file_stem(path) {
            Some(name) => {
                let exe = append_to_exec_dir(exec_dir, name.as_str());
                let e = Emulator { name, path: exe, roms: Vec::new(), loaded_rom: None };
                assert(e@.roms =~= Seq::<RomV>::empty());
                Some(e)
            },
            None => None,
        }
    }

    /// An emulator as it was saved: ROMs at a path seen earlier in `roms`
    /// are dropped, and no ROM is loaded.
    pub fn from_saved(name: String, path: String, roms: Vec<Rom>) -> (r: Emulator)
        ensures
            r@ == restored(name@, path@, roms@.map_values(|x: Rom| x@)),
            r@.wf(),
    {
        let ghost all = roms@.map_values(|x: Rom| x@);
        let mut e = Emulator { name, path, roms: Vec::new(), loaded_rom: None };
        let mut i: usize = 0;
        assert(e@.roms =~= dedup_roms(all.take(0)));
        while i < roms.len()
            invariant
                i <= roms.len(),
                all == roms@.map_values(|x: Rom| x@),
                e@.roms == dedup_roms(all.take(i as int)),
                e@.name == name@,
                e@.path == path@,
                e.loaded_rom is None,
            decreases roms.len() - i,
        {
            assert(all.take(i as int + 1).drop_last() =~= all.take(i as int));
            if !e.has_rom(&roms[i]) {
                e.roms.push(roms[i].clone());
                assert(e@.roms =~= dedup_roms(all.take(i as int)).push(all[i as int]));
            }
            i += 1;
        }
        assert(all.take(roms.len() as int) =~= all);
        proof {
            lemma_dedup_roms_unique(all);
        }
        e
    }

    /// Whether a ROM at `rom`'s path is attached.
    pub fn has_rom(&self, rom: &Rom) -> (r: bool)
        ensures
            r == has_rom_path(self@.roms, rom@.path),
    {
        let mut k: usize = 0;
        while k < self.roms.len()
            invariant
                k <= self.roms.len(),
                forall|j: int| 0 <= j < k ==> #[trigger] self@.roms[j].path != rom@.path,
            decreases self.roms.len() - k,
        {
            if self.roms[k].same_path(rom) {
                assert(self@.roms[k as int].path == rom@.path);
                return true;
            }
            k += 1;
        }
        false
    }

    /// Attaches `rom` unless it is attached already, and makes it the loaded ROM.
    pub fn load_rom(&mut self, rom: Rom)
        ensures
            final(self)@ == old(self)@.attach(rom@),
            old(self)@.wf() ==> final(self)@.wf(),
    {
        if !self.has_rom(&rom) {
            self.roms.push(rom.clone());
            assert(self@.roms =~= old(self)@.roms.push(rom@));
        }
        self.loaded_rom = Some(rom);
        assert(self@.roms == old(self)@.attach(rom@).roms);
    }

    /// The path of the loaded ROM.
    pub fn get_rom_path(&self) -> (r: &str)
        requires
            self@.loaded is Some,
        ensures
            r@ == self@.loaded.unwrap().path,
    {
        match &self.loaded_rom {
            Some(rom) => rom.get_path(),
            None => "",
        }
    }

    /// The ROM loaded in this session, if any.
    pub fn loaded_rom(&self) -> (r: Option<Rom>)
        ensures
            match r {
                Some(rom) => self@.loaded == Some(rom@),
                None => self@.loaded is None,
            },
    {
        clone_rom_option(&self.loaded_rom)
    }

    /// The location of the emulator's executable.
    pub fn get_path(&self) -> (r: &str)
        ensures
            r@ == self@.path,
    {
        self.path.as_str()
    }

    pub fn name(&self) -> (r: &str)
        ensures
            r@ == self@.name,
    {
        self.name.as_str()
    }

    /// The attached ROMs, in attach order.
    pub fn roms(&self) -> (r: &[Rom])
        ensures
            r@.map_values(|x: Rom| x@) == self@.roms,
    {
        self.roms.as_slice()
    }

    pub fn rom_at_index(&self, index: usize) -> (r: Rom)
        requires
            index < self@.roms.len(),
        ensures
            r@ == self@.roms[index as int],
    {
        self.roms[index].clone()
    }

    /// The labels of the attached ROMs, in attach order.
    pub fn roms_as_str(&self) -> (r: Vec<&str>)
        ensures
            r@.map_values(|s: &str| s@) == self@.rom_labels(),
    {
        let mut out: Vec<&str> = Vec::new();
        let mut i: usize = 0;
        while i < self.roms.len()
            invariant
                i <= self.roms.len(),
                out@.len() == i,
                forall|j: int| 0 <= j < i ==> #[trigger] out@[j]@ == self@.rom_labels()[j],
            decreases self.roms.len() - i,
        {
            out.push(self.roms[i].name());
            assert(self@.roms[i as int] == self.roms@[i as int]@);
            i += 1;
        }
        assert(out@.map_values(|s: &str| s@) =~= self@.rom_labels());
        out
    }
}

} // verus!
