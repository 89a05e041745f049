//! The declared dependencies of a project, which of them are unused, and the
//! package manager that would remove them.
use vstd::prelude::*;

use crate::sets::{
    contains_text, distinct, insert_text, lemma_set_of_prefix, opt_text, set_of, text_equals,
    texts,
};

verus! {

/// `u` imports a subpath of the package `d`: it starts with `d` followed by `/`.
pub open spec fn is_subpath_use(u: Seq<char>, d: Seq<char>) -> bool {
    u.len() > d.len() && u.subrange(0, d.len() as int) == d && u[d.len() as int] == '/'
}

/// A declared package is used when a used specifier names it exactly, or
/// imports one of its subpaths.
pub open spec fn is_used(d: Seq<char>, used: Set<Seq<char>>) -> bool {
    used.contains(d) || exists|u: Seq<char>| used.contains(u) && #[trigger] is_subpath_use(u, d)
}

/// The declared packages that are not used.
pub open spec fn unused_of(declared: Set<Seq<char>>, used: Set<Seq<char>>) -> Set<Seq<char>> {
    declared.filter(|d: Seq<char>| !is_used(d, used))
}

/// Whether the specifier `used_dep` imports a subpath of the package `dep`.
pub fn is_subpath_import(used_dep: &str, dep: &str) -> (r: bool)
    ensures
        r == is_subpath_use(used_dep@, dep@),
{
    let n = dep.unicode_len();
    let m = used_dep.unicode_len();
    if m <= n {
        return false;
    }
    let mut i: usize = 0;
    while i < n
        invariant
            n == dep@.len(),
            m == used_dep@.len(),
            n < m,
            0 <= i <= n,
            forall|k: int| 0 <= k < i ==> used_dep@[k] == dep@[k],
        decreases n - i,
    {
        if used_dep.get_char(i) != dep.get_char(i) {
            assert(used_dep@.subrange(0, n as int)[i as int] != dep@[i as int]);
            return false;
        }
        i += 1;
    }
    assert(used_dep@.subrange(0, n as int) =~= dep@);
    used_dep.get_char(n) == '/'
}

/// Whether some specifier of `used` uses the package `dep`.
pub fn is_used_dependency(dep: &String, used: &Vec<String>) -> (r: bool)
    ensures
        r == is_used(dep@, set_of(used@)),
{
    if contains_text(used, dep) {
        return true;
    }
    let mut j: usize = 0;
    while j < used.len()
        invariant
            0 <= j <= used.len(),
            forall|k: int| 0 <= k < j ==> !is_subpath_use((#[trigger] used@[k])@, dep@),
        decreases used.len() - j,
    {
        if is_subpath_import(used[j].as_str(), dep.as_str()) {
            proof {
                assert(texts(used@)[j as int] == used@[j as int]@);
                assert(set_of(used@).contains(used@[j as int]@));
            }
            return true;
        }
        j += 1;
    }
    proof {
        assert forall|u: Seq<char>| set_of(used@).contains(u) implies !is_subpath_use(u, dep@) by {
            let k = choose|k: int| 0 <= k < texts(used@).len() && texts(used@)[k] == u;
            assert(used@[k]@ == u);
        }
    }
    false
}

/// The parts of a manifest that the analysis reads: the `dependencies`
/// mapping, from package name to version range.
#[derive(Clone, Debug)]
pub struct PackageJSON {
    pub dependencies: Vec<(String, String)>,
}

/// The package names that a manifest declares.
pub open spec fn declared_names(package_json: Option<PackageJSON>) -> Set<Seq<char>> {
    match package_json {
        Some(p) => Set::new(
            |n: Seq<char>| exists|i: int| 0 <= i < p.dependencies@.len() && #[trigger] p.dependencies@[i].0@ == n,
        ),
        None => Set::empty(),
    }
}

/// The declared dependencies of a project, and those found unused.
#[derive(Debug)]
pub struct PackageJSONContainer {
    dependencies: Vec<String>,
    unused_dependencies: Vec<String>,
}

impl PackageJSONContainer {
    /// The declared package names.
    pub closed spec fn declared(&self) -> Set<Seq<char>> {
        set_of(self.dependencies@)
    }

    /// The declared package names found unused by the last reconciliation.
    pub closed spec fn unused(&self) -> Set<Seq<char>> {
        set_of(self.unused_dependencies@)
    }

    /// Neither list repeats a name.
    pub closed spec fn wf(&self) -> bool {
        distinct(self.dependencies@) && distinct(self.unused_dependencies@)
    }

    pub fn new() -> (r: Self)
        ensures
            r.wf(),
            r.declared() == Set::<Seq<char>>::empty(),
            r.unused() == Set::<Seq<char>>::empty(),
    {
        let r = PackageJSONContainer { dependencies: Vec::new(), unused_dependencies: Vec::new() };
        assert(texts(r.dependencies@) =~= Seq::<Seq<char>>::empty());
        assert(texts(r.unused_dependencies@) =~= Seq::<Seq<char>>::empty());
        assert(r.declared() =~= Set::<Seq<char>>::empty());
        assert(r.unused() =~= Set::<Seq<char>>::empty());
        r
    }

    /// The unused dependencies, each once.
    pub fn unused_dependencies(&self) -> (r: &Vec<String>)
        requires
            self.wf(),
        ensures
            distinct(r@),
            set_of(r@) == self.unused(),
    {
        &self.unused_dependencies
    }

    /// Reconciles the declared names with the specifiers that the project
    /// uses: a declared name is unused when no used specifier is that name,
    /// and none imports a subpath of it. With nothing used, every declared
    /// name is unused.
    pub fn compute_unused_deps(&mut self, used: &Vec<String>)
        requires
            old(self).wf(),
        ensures
            final(self).wf(),
            final(self).declared() == old(self).declared(),
            final(self).unused() == unused_of(old(self).declared(), set_of(used@)),
    {
        let ghost used_set = set_of(used@);
        let mut unused: Vec<String> = Vec::new();
        assert(texts(unused@) =~= Seq::<Seq<char>>::empty());
        let mut i: usize = 0;
        while i < self.dependencies.len()
            invariant
                0 <= i <= self.dependencies.len(),
                used_set == set_of(used@),
                distinct(unused@),
                set_of(unused@) == unused_of(set_of(self.dependencies@.subrange(0, i as int)), used_set),
            decreases self.dependencies.len() - i,
        {
            let dep = &self.dependencies[i];
            let ghost prev = set_of(self.dependencies@.subrange(0, i as int));
            proof {
                lemma_set_of_prefix(self.dependencies@, i as int);
            }
            if !is_used_dependency(dep, used) {
                insert_text(&mut unused, dep.clone());
                assert(set_of(unused@) =~= unused_of(prev.insert(dep@), used_set));
            } else {
                assert(set_of(unused@) =~= unused_of(prev.insert(dep@), used_set));
            }
            i += 1;
        }
        assert(self.dependencies@.subrange(0, i as int) =~= self.dependencies@);
        self.unused_dependencies = unused;
    }
}

/// Collects a manifest, then builds the container of its declared names.
pub struct PackageJSONBuilder {
    package_json: Option<PackageJSON>,
    /// The raw content of package.json
    raw: String,
}

impl PackageJSONBuilder {
    /// The manifest collected so far.
    pub closed spec fn manifest(&self) -> Option<PackageJSON> {
        self.package_json
    }

    /// The raw text of the manifest collected so far.
    pub closed spec fn raw_text(&self) -> Seq<char> {
        self.raw@
    }

    pub fn new() -> (r: Self)
        ensures
            r.manifest() is None,
            r.raw_text() == Seq::<char>::empty(),
    {
        PackageJSONBuilder { package_json: None, raw: String::new() }
    }

    /// Takes the manifest, read from `raw`.
    pub fn with_package_json(&mut self, package_json: PackageJSON, raw: String)
        ensures
            final(self).manifest() == Some(package_json),
            final(self).raw_text() == raw@,
    {
        self.package_json = Some(package_json);
        self.raw = raw;
    }

    /// The container of the declared names, with nothing found unused yet.
    pub fn build(self) -> (r: PackageJSONContainer)
        ensures
            r.wf(),
            r.declared() == declared_names(self.manifest()),
            r.unused() == Set::<Seq<char>>::empty(),
    {
        let mut container = PackageJSONContainer::new();
        match self.package_json {
            Some(package_json) => {
                let ghost deps = package_json.dependencies@;
                let mut i: usize = 0;
                while i < package_json.dependencies.len()
                    invariant
                        0 <= i <= package_json.dependencies.len(),
                        deps == package_json.dependencies@,
                        container.wf(),
                        container.unused() == Set::<Seq<char>>::empty(),
                        container.declared() == Set::new(
                            |n: Seq<char>| exists|k: int| 0 <= k < i && #[trigger] deps[k].0@ == n,
                        ),
                    decreases package_json.dependencies.len() - i,
                {
                    let name = package_json.dependencies[i].0.clone();
                    let ghost prev = container.declared();
                    container.insert_dependency(name);
                    proof {
                        let next = Set::new(
                            |n: Seq<char>| exists|k: int| 0 <= k < i + 1 && #[trigger] deps[k].0@ == n,
                        );
                        assert forall|n: Seq<char>| next.contains(n) implies prev.insert(deps[i as int].0@).contains(n) by {
                            let k = choose|k: int| 0 <= k < i + 1 && #[trigger] deps[k].0@ == n;
                        }
                        assert forall|n: Seq<char>| prev.contains(n) implies next.contains(n) by {
                            let k = choose|k: int| 0 <= k < i && #[trigger] deps[k].0@ == n;
                        }
                        assert(next.contains(deps[i as int].0@));
                        assert(container.declared() =~= next);
                    }
                    i += 1;
                }
                assert(container.declared() =~= declared_names(Some(package_json)));
            },
            None => {
                assert(declared_names(None) =~= Set::<Seq<char>>::empty());
            },
        }
        container
    }
}

impl PackageJSONContainer {
    /// Adds a declared package name.
    fn insert_dependency(&mut self, name: String)
        requires
            old(self).wf(),
        ensures
            final(self).wf(),
            final(self).declared() == old(self).declared().insert(name@),
            final(self).unused() == old(self).unused(),
    {
        insert_text(&mut self.dependencies, name);
    }
}

/// The package managers whose removal command is known.
#[derive(Clone, Copy, Debug, PartialEq, Eq, Structural)]
pub enum PkgManager {
    Npm,
    Yarn,
    Pnpm,
    Bun,
}

impl Default for PkgManager {
    fn default() -> (r: Self)
        ensures
            r == PkgManager::Npm,
    {
        PkgManager::Npm
    }
}

/// The package manager that a name denotes.
pub open spec fn pkg_manager_named(s: Seq<char>) -> Option<PkgManager> {
    if s == "npm"@ {
        Some(PkgManager::Npm)
    } else if s == "yarn"@ {
        Some(PkgManager::Yarn)
    } else if s == "pnpm"@ {
        Some(PkgManager::Pnpm)
    } else if s == "bun"@ {
        Some(PkgManager::Bun)
    } else {
        None
    }
}

/// Which lock files a project's root directory holds.
#[derive(Clone, Copy, Debug, PartialEq, Eq, Structural)]
pub struct Lockfiles {
    /// `yarn.lock`
    pub yarn: bool,
    /// `pnpm-lock.yaml`
    pub pnpm: bool,
    /// `package-lock.json`
    pub npm: bool,
    /// `bun.lockb`
    pub bun: bool,
}

/// The package manager of a project: the first lock file found, in the order
/// yarn, pnpm, npm, bun; else the manifest's `packageManager` field when it is
/// exactly one of their names; else npm.
pub open spec fn detected_pkg_manager(lockfiles: Lockfiles, package_manager: Option<Seq<char>>) -> PkgManager {
    if lockfiles.yarn {
        PkgManager::Yarn
    } else if lockfiles.pnpm {
        PkgManager::Pnpm
    } else if lockfiles.npm {
        PkgManager::Npm
    } else if lockfiles.bun {
        PkgManager::Bun
    } else {
        match package_manager {
            Some(s) => match pkg_manager_named(s) {
                Some(p) => p,
                None => PkgManager::Npm,
            },
            None => PkgManager::Npm,
        }
    }
}

/// The command that removes packages with a package manager.
pub open spec fn uninstall_cmd(p: PkgManager) -> Seq<char> {
    match p {
        PkgManager::Npm => "npm uninstall"@,
        PkgManager::Yarn => "yarn remove"@,
        PkgManager::Pnpm => "pnpm remove"@,
        PkgManager::Bun => "bun remove"@,
    }
}

/// The string that the JSON text `raw` holds under `key` in its top-level
/// object; none when the text does not parse, is not an object, lacks the key,
/// or holds something other than a string there.
pub uninterp spec fn json_string_member(raw: Seq<char>, key: Seq<char>) -> Option<Seq<char>>;

/// Relies on serde_json::from_str to parse a JSON text into a
/// `serde_json::Value`, read with `Value::get` and `Value::as_str`; the result
/// depends on the two texts alone.
#[verifier::external_body]
fn string_member(raw: &str, key: &str) -> (r: Option<String>)
    ensures
        opt_text(r) == json_string_member(raw@, key@),
{
    let value = match serde_json::from_str::<serde_json::Value>(raw) {
        Ok(value) => value,
        Err(_) => return None,
    };
    match value.get(key) {
        Some(member) => member.as_str().map(String::from),
        None => None,
    }
}

impl PkgManager {
    /// The package manager of a project, from the lock files at its root and
    /// the raw text of its manifest, whose `packageManager` field names one.
    pub fn from_manifest(lockfiles: &Lockfiles, raw_manifest: &str) -> (r: Self)
        ensures
            r == detected_pkg_manager(*lockfiles, json_string_member(raw_manifest@, "packageManager"@)),
    {
        let field = string_member(raw_manifest, "packageManager");
        match field {
            Some(name) => PkgManager::new_from_path(lockfiles, Some(name.as_str())),
            None => PkgManager::new_from_path(lockfiles, None),
        }
    }

    /// The package manager of a project, from the lock files at its root and
    /// the `packageManager` field of its manifest.
    pub fn new_from_path(lockfiles: &Lockfiles, package_manager: Option<&str>) -> (r: Self)
        ensures
            r == detected_pkg_manager(
                *lockfiles,
                match package_manager {
                    Some(s) => Some(s@),
                    None => None,
                },
            ),
    {
        if lockfiles.yarn {
            return PkgManager::Yarn;
        }
        if lockfiles.pnpm {
            return PkgManager::Pnpm;
        }
        if lockfiles.npm {
            return PkgManager::Npm;
        }
        if lockfiles.bun {
            return PkgManager::Bun;
        }
        match package_manager {
            Some(s) => match PkgManager::from_name(s) {
                Some(p) => p,
                None => PkgManager::Npm,
            },
            None => PkgManager::Npm,
        }
    }

    /// The package manager named `s`, if it is one of `npm`, `yarn`, `pnpm`
    /// and `bun`.
    pub fn from_name(s: &str) -> (r: Option<Self>)
        ensures
            r == pkg_manager_named(s@),
    {
        if text_equals(s, "npm") {
            Some(PkgManager::Npm)
        } else if text_equals(s, "yarn") {
            Some(PkgManager::Yarn)
        } else if text_equals(s, "pnpm") {
            Some(PkgManager::Pnpm)
        } else if text_equals(s, "bun") {
            Some(PkgManager::Bun)
        } else {
            None
        }
    }

    /// The command that removes packages with this package manager.
    pub fn get_uninstall_cmd(&self) -> (r: &'static str)
        ensures
            r@ == uninstall_cmd(*self),
    {
        match self {
            PkgManager::Npm => "npm uninstall",
            PkgManager::Yarn => "yarn remove",
            PkgManager::Pnpm => "pnpm remove",
            PkgManager::Bun => "bun remove",
        }
    }
}

impl std::str::FromStr for PkgManager {
    type Err = ();

    fn from_str(s: &str) -> Result<Self, Self::Err> {
        match PkgManager::from_name(s) {
            Some(p) => Ok(p),
            None => Err(()),
        }
    }
}

} // verus!
