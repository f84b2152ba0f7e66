use vstd::prelude::*;
use crate::emulator::{Emulator, EmulatorV, fresh_emulator};
use crate::paths::{file_stem_of, same_text};
use crate::rom::{Rom, RomV};

verus! {

/// The label that closes the launcher, shown after the emulators' names.
pub const EXIT_TEXT: &'static str = "Exit";

pub open spec fn exit_label() -> Seq<char> {
    seq!['E', 'x', 'i', 't']
}

/// The names of the emulators, in order.
pub open spec fn names_of(s: Seq<EmulatorV>) -> Seq<Seq<char>> {
    s.map_values(|e: EmulatorV| e.name)
}

/// Whether some emulator of `s` is named `name`.
pub open spec fn has_name(s: Seq<EmulatorV>, name: Seq<char>) -> bool {
    exists|k: int| 0 <= k < s.len() && #[trigger] s[k].name == name
}

pub open spec fn names_unique(s: Seq<EmulatorV>) -> bool {
    forall|a: int, b: int| 0 <= a < b < s.len() ==> #[trigger] s[a].name != #[trigger] s[b].name
}

/// A well-formed registry: names unique, and each emulator's ROMs unique.
pub open spec fn registry_wf(s: Seq<EmulatorV>) -> bool {
    &&& names_unique(s)
    &&& forall|i: int| 0 <= i < s.len() ==> #[trigger] s[i].wf()
}

/// The labels of the root menu: the names, then the exit label.
pub open spec fn menu_names(s: Seq<EmulatorV>) -> Seq<Seq<char>> {
    names_of(s).push(exit_label())
}

/// `s` with every emulator dropped whose name an earlier one already has.
pub open spec fn dedup_names(s: Seq<EmulatorV>) -> Seq<EmulatorV>
    decreases s.len(),
{
    if s.len() == 0 {
        s
    } else {
        let d = dedup_names(s.drop_last());
        if has_name(d, s.last().name) {
            d
        } else {
            d.push(s.last())
        }
    }
}

/// `s` with `rom` attached to the emulator at `index`.
pub open spec fn attach_at(s: Seq<EmulatorV>, index: int, rom: RomV) -> Seq<EmulatorV> {
    s.update(index, s[index].attach(rom))
}

/// The registry made from the known program paths `ids`: one fresh emulator
/// per file stem, in order, the first of each name kept.
pub open spec fn fresh_registry(ids: Seq<Seq<char>>, exec_dir: Seq<char>) -> Seq<EmulatorV>
    decreases ids.len(),
{
    if ids.len() == 0 {
        Seq::empty()
    } else {
        let d = fresh_registry(ids.drop_last(), exec_dir);
        match file_stem_of(ids.last()) {
            Some(n) => if has_name(d, n) {
                d
            } else {
                d.push(fresh_emulator(n, exec_dir))
            },
            None => d,
        }
    }
}

/// The emulators, in menu order. Names are unique.
pub struct Emulators {
    emulators: Vec<Emulator>,
}

impl View for Emulators {
    type V = Seq<EmulatorV>;

    closed spec fn view(&self) -> Seq<EmulatorV> {
        self.emulators@.map_values(|e: Emulator| e@)
    }
}

impl Clone for Emulators {
    fn clone(&self) -> (r: Self)
        ensures
            r@ == self@,
    {
        let mut out: Vec<Emulator> = Vec::new();
        let mut i: usize = 0;
        while i < self.emulators.len()
            invariant
                i <= self.emulators.len(),
                out@.len() == i,
                forall|j: int| 0 <= j < i ==> #[trigger] out@[j]@ == self@[j],
            decreases self.emulators.len() - i,
        {
            out.push(self.emulators[i].clone());
            i += 1;
        }
        let r = Emulators { emulators: out };
        assert(r@ =~= self@);
        r
    }
}

impl Emulators {
    pub open spec fn wf(&self) -> bool {
        registry_wf(self@)
    }

    /// The registry of `emulators`, in order, the first of each name kept and
    /// each kept emulator as given.
    pub fn new_from_vec(emulators: Vec<Emulator>) -> (r: Emulators)
        requires
            forall|i: int| 0 <= i < emulators@.len() ==> (#[trigger] emulators@[i])@.wf(),
        ensures
            r@ == dedup_names(emulators@.map_values(|e: Emulator| e@)),
            r.wf(),
    {
        let ghost all = emulators@.map_values(|e: Emulator| e@);
        let mut r = Emulators { emulators: Vec::new() };
        let mut i: usize = 0;
        assert(r@ =~= dedup_names(all.take(0)));
        while i < emulators.len()
            invariant
                i <= emulators.len(),
                all == emulators@.map_values(|e: Emulator| e@),
                forall|j: int| 0 <= j < emulators@.len() ==> (#[trigger] emulators@[j])@.wf(),
                r@ == dedup_names(all.take(i as int)),
                r.wf(),
            decreases emulators.len() - i,
        {
            assert(all.take(i as int + 1).drop_last() =~= all.take(i as int));
            let e = emulators[i].clone();
            if r.find(e.name()).is_none() {
                r.push_new(e);
            }
            i += 1;
        }
        assert(all.take(emulators.len() as int) =~= all);
        r
    }

    /// Appends `e`, whose name is not taken yet.
    fn push_new(&mut self, e: Emulator)
        requires
            old(self).wf(),
            e@.wf(),
            !has_name(old(self)@, e@.name),
        ensures
            final(self)@ == old(self)@.push(e@),
            final(self).wf(),
    {
        self.emulators.push(e);
        assert(self@ =~= old(self)@.push(e@));
        assert forall|a: int, b: int| 0 <= a < b < self@.len() implies
            #[trigger] self@[a].name != #[trigger] self@[b].name by {
            if b == old(self)@.len() {
                assert(old(self)@[a].name == self@[a].name);
            }
        }
    }

    /// The registry of the known program paths `place_holders`: one fresh
    /// emulator for each path with a file stem, the first of each name kept.
    pub fn from_strings(place_holders: Vec<&str>, exec_dir: &str) -> (r: Emulators)
        ensures
            r@ == fresh_registry(place_holders@.map_values(|s: &str| s@), exec_dir@),
            r.wf(),
    {
        let ghost ids = place_holders@.map_values(|s: &str| s@);
        let mut r = Emulators { emulators: Vec::new() };
        let mut i: usize = 0;
        assert(r@ =~= fresh_registry(ids.take(0), exec_dir@));
        while i < place_holders.len()
            invariant
                i <= place_holders.len(),
                ids == place_holders@.map_values(|s: &str| s@),
                r@ == fresh_registry(ids.take(i as int), exec_dir@),
                r.wf(),
            decreases place_holders.len() - i,
        {
            assert(ids.take(i as int + 1).drop_last() =~= ids.take(i as int));
            assert(ids.take(i as int + 1).last() == place_holders@[i as int]@);
            match Emulator::new(place_holders[i], exec_dir) {
                Some(e) => {
                    if r.find(e.name()).is_none() {
                        r.push_new(e);
                    }
                },
                None => {},
            }
            i += 1;
        }
        assert(ids.take(place_holders.len() as int) =~= ids);
        r
    }

    /// The position of the emulator named `name`, if there is one.
    pub fn find(&self, name: &str) -> (r: Option<usize>)
        ensures
            match r {
                Some(i) => i < self@.len() && self@[i as int].name == name@,
                None => !has_name(self@, name@),
            },
    {
        let mut k: usize = 0;
        while k < self.emulators.len()
            invariant
                k <= self.emulators.len(),
                forall|j: int| 0 <= j < k ==> #[trigger] self@[j].name != name@,
            decreases self.emulators.len() - k,
        {
            if same_text(self.emulators[k].name(), name) {
                return Some(k);
            }
            k += 1;
        }
        None
    }

    /// The number of emulators.
    pub fn len(&self) -> (r: usize)
        ensures
            r == self@.len(),
    {
        self.emulators.len()
    }

    /// Attaches `rom` to the emulator at `index` and makes it that emulator's
    /// loaded ROM.
    pub fn load_rom_into_emulator(&mut self, rom: Rom, index: usize)
        requires
            old(self).wf(),
            index < old(self)@.len(),
        ensures
            final(self)@ == attach_at(old(self)@, index as int, rom@),
            final(self).wf(),
    {
        let mut e = self.emulators[index].clone();
        e.load_rom(rom);
        self.emulators.set(index, e);
        assert(self@ =~= old(self)@.update(index as int, old(self)@[index as int].attach(rom@)));
        assert forall|a: int, b: int| 0 <= a < b < self@.len() implies
            #[trigger] self@[a].name != #[trigger] self@[b].name by {
            assert(self@[a].name == old(self)@[a].name);
            assert(self@[b].name == old(self)@[b].name);
        }
    }

    /// A copy of the emulator at `index`.
    pub fn get_emulator_clone(&self, index: usize) -> (r: Emulator)
        requires
            index < self@.len(),
        ensures
            r@ == self@[index as int],
    {
        self.emulators[index].clone()
    }

    /// The emulators, in menu order.
    pub fn emulators(&self) -> (r: &[Emulator])
        ensures
            r@.map_values(|e: Emulator| e@) == self@,
    {
        self.emulators.as_slice()
    }

    /// The root menu's labels: the emulators' names in order, then `"Exit"`.
    pub fn emulator_names_to_string(&self) -> (r: Vec<&str>)
        ensures
            r@.map_values(|s: &str| s@) == menu_names(self@),
    {
        let mut out: Vec<&str> = Vec::new();
        let mut i: usize = 0;
        while i < self.emulators.len()
            invariant
                i <= self.emulators.len(),
                out@.len() == i,
                forall|j: int| 0 <= j < i ==> #[trigger] out@[j]@ == self@[j].name,
            decreases self.emulators.len() - i,
        {
            out.push(self.emulators[i].name());
            i += 1;
        }
        let exit: &str = EXIT_TEXT;
        proof {
            reveal_strlit("Exit");
        }
        assert(exit@ =~= exit_label());
        out.push(exit);
        assert(out@.map_values(|s: &str| s@) =~= menu_names(self@));
        out
    }

    /// The position of the emulator with `emulator`'s name, which must be in
    /// the registry.
    pub fn emulator_index(&self, emulator: &Emulator) -> (r: usize)
        requires
            has_name(self@, emulator@.name),
        ensures
            r < self@.len(),
            self@[r as int].name == emulator@.name,
    {
        match self.find(emulator.name()) {
            Some(i) => i,
            None => 0,
        }
    }

    /// The number of ROMs attached to the emulator at `index`.
    pub fn rom_count(&self, index: usize) -> (r: usize)
        requires
            index < self@.len(),
        ensures
            r == self@[index as int].roms.len(),
    {
        self.emulators[index].roms().len()
    }

    /// The labels of the ROMs attached to the emulator at `index`.
    pub fn rom_labels(&self, index: usize) -> (r: Vec<&str>)
        requires
            index < self@.len(),
        ensures
            r@.map_values(|s: &str| s@) == self@[index as int].rom_labels(),
    {
        self.emulators[index].roms_as_str()
    }
}

} // verus!
