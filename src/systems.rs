use vstd::prelude::*;

use crate::gamelist::Game;
use crate::text::{file_name, file_name_of, replace_all, replaced, sh_escaped, shell_escape};

verus! {

/// An emulated platform: how to start its games, and the games themselves.
#[derive(Debug)]
pub struct System {
    pub name: String,
    pub fullname: String,
    pub path: String,
    pub extension: String,
    /// The command line template; `%ROM%`, `%ROM_RAW` and `%BASENAME%` stand for
    /// the game's path, shell-escaped, raw, and its final component.
    pub command: String,
    pub platform: String,
    pub gamelist: Vec<Game>,
}

impl System {
    /// Equal fields, and the same games in the same order.
    pub open spec fn same_as(&self, other: &System) -> bool {
        &&& self.name == other.name
        &&& self.fullname == other.fullname
        &&& self.path == other.path
        &&& self.extension == other.extension
        &&& self.command == other.command
        &&& self.platform == other.platform
        &&& self.gamelist@ == other.gamelist@
    }
}

/// The command line `template` with its placeholders filled in, in this order:
/// `%ROM%` by `rom`, then `%ROM_RAW` by `raw`, then `%BASENAME%` by `basename`.
pub open spec fn expanded(
    template: Seq<char>,
    rom: Seq<char>,
    raw: Seq<char>,
    basename: Seq<char>,
) -> Seq<char> {
    replaced(
        replaced(replaced(template, "%ROM%"@, rom), "%ROM_RAW"@, raw),
        "%BASENAME%"@,
        basename,
    )
}

/// The command line `template` with its placeholders filled in (see `expanded`).
pub fn expand_command(template: &str, rom: &str, raw: &str, basename: &str) -> (r: String)
    ensures
        r@ == expanded(template@, rom@, raw@, basename@),
{
    proof {
        reveal_strlit("%ROM%");
        reveal_strlit("%ROM_RAW");
        reveal_strlit("%BASENAME%");
    }
    let with_rom = replace_all(template, "%ROM%", rom);
    let with_raw = replace_all(with_rom.as_str(), "%ROM_RAW", raw);
    replace_all(with_raw.as_str(), "%BASENAME%", basename)
}

impl System {
    /// The command line that starts the game at `path`; none where the path has
    /// no final component.
    pub open spec fn command_for(&self, path: Seq<char>) -> Option<Seq<char>> {
        match file_name_of(path) {
            None => None,
            Some(base) => Some(expanded(self.command@, sh_escaped(path), path, base)),
        }
    }

    /// The command line that starts the game at `path`: the template with the
    /// shell-escaped path, the raw path and the path's final component filled in.
    pub fn get_command(&self, path: &str) -> (r: Option<String>)
        ensures
            match r {
                Some(c) => self.command_for(path@) == Some(c@),
                None => self.command_for(path@) is None,
            },
    {
        match file_name(path) {
            None => None,
            Some(base) => {
                let rom = shell_escape(path);
                Some(expand_command(self.command.as_str(), rom.as_str(), path, base.as_str()))
            },
        }
    }
}

impl Clone for System {
    fn clone(&self) -> (r: Self)
        ensures
            r.same_as(self),
    {
        let gamelist = self.gamelist.clone();
        assert(gamelist@ =~= self.gamelist@);
        System {
            name: self.name.clone(),
            fullname: self.fullname.clone(),
            path: self.path.clone(),
            extension: self.extension.clone(),
            command: self.command.clone(),
            platform: self.platform.clone(),
            gamelist,
        }
    }
}

/// The catalog: every known system, in the order of the systems file.
#[derive(Debug)]
pub struct SystemList {
    pub system: Vec<System>,
}

impl SystemList {
    /// As many systems, each the same as the one at its position in `other`.
    pub open spec fn same_as(&self, other: &SystemList) -> bool {
        &&& self.system@.len() == other.system@.len()
        &&& forall|i: int| 0 <= i < self.system@.len() ==> #[trigger] self.system@[i].same_as(&other.system@[i])
    }
}

/// What `str::to_lowercase` makes of `s`.
pub uninterp spec fn lower_of(s: Seq<char>) -> Seq<char>;

/// Relies on `str::to_lowercase`: the lower-case form depends on the characters alone.
#[verifier::external_body]
fn lowercase(s: &str) -> (r: String)
    ensures
        r@ == lower_of(s@),
{
    s.to_lowercase()
}

/// Whether `i` is the first position of `names` that holds `key`.
pub open spec fn is_first(names: Seq<Seq<char>>, key: Seq<char>, i: int) -> bool {
    &&& 0 <= i < names.len()
    &&& names[i] == key
    &&& forall|j: int| 0 <= j < i ==> names[j] != key
}

/// The first position of `names` that holds `key`.
pub fn find_first(names: &Vec<String>, key: &String) -> (r: Option<usize>)
    ensures
        match r {
            Some(i) => is_first(names@.map_values(|n: String| n@), key@, i as int),
            None => forall|j: int| 0 <= j < names@.len() ==> (#[trigger] names@[j])@ != key@,
        },
{
    let mut i: usize = 0;
    while i < names.len()
        invariant
            i <= names@.len(),
            forall|j: int| 0 <= j < i ==> (#[trigger] names@[j])@ != key@,
        decreases names@.len() - i,
    {
        if names[i] == *key {
            return Some(i);
        }
        i = i + 1;
    }
    None
}

impl SystemList {
    /// The names of the systems in lower case.
    pub open spec fn folded_names(&self) -> Seq<Seq<char>> {
        self.system@.map_values(|s: System| lower_of(s.name@))
    }

    /// Hands the games read from the directory `dir_name` to the first system of
    /// the same name, letters compared in lower case. An empty list, or a name
    /// that no system has, changes nothing.
    pub fn merge_gamelist(&mut self, dir_name: &str, games: Vec<Game>)
        ensures
            (games@.len() == 0 || !old(self).folded_names().contains(lower_of(dir_name@)))
                ==> final(self).system@ == old(self).system@,
            forall|i: int|
                games@.len() > 0 && is_first(old(self).folded_names(), lower_of(dir_name@), i)
                    ==> final(self).system@ == old(self).system@.update(
                    i,
                    System { gamelist: games, ..old(self).system@[i] },
                ),
    {
        if games.len() == 0 {
            return;
        }
        let mut folded: Vec<String> = Vec::new();
        let mut k: usize = 0;
        while k < self.system.len()
            invariant
                k <= self.system@.len(),
                folded@.len() == k,
                forall|j: int| 0 <= j < k ==> (#[trigger] folded@[j])@ == lower_of(self.system@[j].name@),
            decreases self.system@.len() - k,
        {
            folded.push(lowercase(self.system[k].name.as_str()));
            k = k + 1;
        }
        let key = lowercase(dir_name);
        let ghost names = folded@.map_values(|n: String| n@);
        assert(names =~= self.folded_names());
        match find_first(&folded, &key) {
            Some(i) => {
                proof {
                    assert forall|j: int| is_first(names, key@, j) implies j == i by {
                        if j < i {
                            assert(names[j] != key@);
                        } else if j > i {
                            assert(names[i as int] != key@);
                        }
                    }
                }
                self.system[i].gamelist = games;
            },
            None => {
                assert forall|j: int| 0 <= j < names.len() implies names[j] != key@ by {
                    assert(folded@[j]@ != key@);
                }
                assert(!names.contains(key@));
            },
        }
    }

    /// Drops the systems without games, keeping the order of the others.
    pub fn retain_playable(&mut self)
        ensures
            final(self).system@ == old(self).system@.filter(|s: System| s.gamelist@.len() > 0),
    {
        let ghost all = self.system@;
        let ghost playable = |s: System| s.gamelist@.len() > 0;
        let mut rest: Vec<System> = Vec::new();
        std::mem::swap(&mut self.system, &mut rest);
        let n = rest.len();
        let mut k: usize = 0;
        assert(all.subrange(0, 0).filter(playable) =~= self.system@);
        while k < n
            invariant
                playable == (|s: System| s.gamelist@.len() > 0),
                n == all.len(),
                k <= n,
                rest@ == all.subrange(k as int, n as int),
                self.system@ == all.subrange(0, k as int).filter(playable),
            decreases n - k,
        {
            let s = rest.remove(0);
            proof {
                assert(all.subrange(0, k + 1) =~= all.subrange(0, k as int).push(s));
                all.subrange(0, k as int).lemma_filter_push(s, playable);
            }
            if s.gamelist.len() > 0 {
                self.system.push(s);
            }
            assert(rest@ =~= all.subrange(k + 1, n as int));
            k = k + 1;
        }
        assert(all.subrange(0, n as int) =~= all);
    }
}

impl Clone for SystemList {
    fn clone(&self) -> (r: Self)
        ensures
            r.same_as(self),
    {
        let system = self.system.clone();
        SystemList { system }
    }
}

} // verus!
