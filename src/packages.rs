//! Allowlist-gated installation of third-party packages into a session.
use vstd::prelude::*;
use vstd::string::StrSliceExecFns;

use crate::config::same_text;
use crate::models::Language;
use crate::text::{concat, concat3, push_text, strings_view};

verus! {

/// Package installer settings.
#[derive(Clone, Debug)]
pub struct PackageConfig {
    pub enabled: bool,
    pub pypi_mirror: Option<String>,
    pub npm_registry: Option<String>,
    pub cran_mirror: Option<String>,
    pub max_packages_per_session: usize,
}

impl Default for PackageConfig {
    fn default() -> (r: PackageConfig)
        ensures
            !r.enabled,
            r.pypi_mirror is None,
            r.npm_registry is None,
            r.cran_mirror is None,
            r.max_packages_per_session == 50,
    {
        PackageConfig {
            enabled: false,
            pypi_mirror: None,
            npm_registry: None,
            cran_mirror: None,
            max_packages_per_session: 50,
        }
    }
}

/// Why an installation was refused or failed.
#[derive(Clone, Debug)]
pub enum PackageError {
    /// Package installation is switched off.
    Disabled,
    /// The package is not on the language's allowlist.
    NotAllowed,
    /// The user already has the maximum number of packages.
    LimitReached,
    /// The language has no package installer.
    Unsupported,
    /// The installer exited with failure; its stderr.
    InstallFailed(String),
}

/// The strings of a list, as a set.
pub open spec fn names(v: Seq<String>) -> Set<Seq<char>> {
    Set::new(|n: Seq<char>| exists|i: int| 0 <= i < v.len() && v[i]@ == n)
}

/// Languages with a package installer.
pub open spec fn installable(language: Language) -> bool {
    language == Language::Python || language == Language::Javascript || language == Language::R
}

/// Number of (user, package) records of a user.
pub open spec fn count_of(records: Seq<(String, String)>, user_id: Seq<char>) -> nat
    decreases records.len(),
{
    if records.len() == 0 {
        0
    } else {
        count_of(records.drop_last(), user_id) + if records.last().0@ == user_id {
            1nat
        } else {
            0nat
        }
    }
}

/// Packages installed for a user.
pub open spec fn installed_of(records: Seq<(String, String)>, user_id: Seq<char>) -> Set<Seq<char>> {
    Set::new(|p: Seq<char>| exists|i: int| 0 <= i < records.len() && records[i].0@ == user_id && records[i].1@ == p)
}

/// Host part of a mirror URL: what lies between the first `://` and the
/// next `/`; `pypi.org` when there is no `://`.
pub open spec fn mirror_host(url: Seq<char>) -> Seq<char> {
    match crate::packages::find_from(url, "://"@, 0) {
        Some(i) => {
            let rest = url.skip(i + 3);
            match crate::packages::find_from(rest, "/"@, 0) {
                Some(j) => rest.take(j),
                None => rest,
            }
        },
        None => "pypi.org"@,
    }
}

/// First offset at or after `i` where `pat` occurs in `s`, by characters.
pub open spec fn find_from(s: Seq<char>, pat: Seq<char>, i: int) -> Option<int>
    decreases s.len() + 1 - i,
{
    if i < 0 || i + pat.len() > s.len() {
        None
    } else if s.subrange(i, i + pat.len()) == pat {
        Some(i)
    } else {
        find_from(s, pat, i + 1)
    }
}

fn find_chars(s: &str, pat: &str) -> (r: Option<usize>)
    requires
        pat@.len() > 0,
    ensures
        match find_from(s@, pat@, 0) {
            Some(i) => r is Some && r.unwrap() as int == i,
            None => r is None,
        },
        r is Some ==> r.unwrap() + pat@.len() <= s@.len(),
{
    let n = s.unicode_len();
    let m = pat.unicode_len();
    if m > n {
        return None;
    }
    let mut i: usize = 0;
    let last = n - m;
    while i <= last
        invariant
            n == s@.len(),
            m == pat@.len(),
            m > 0,
            last + m == n,
            find_from(s@, pat@, 0) == find_from(s@, pat@, i as int),
        decreases n - i,
    {
        let mut k: usize = 0;
        let mut same = true;
        while k < m
            invariant
                n == s@.len(),
                m == pat@.len(),
                i + m <= n,
                k <= m,
                same == (forall|j: int| 0 <= j < k ==> s@[i + j] == pat@[j]),
            decreases m - k,
        {
            if s.get_char(i + k) != pat.get_char(k) {
                same = false;
            }
            k = k + 1;
        }
        if same {
            assert(s@.subrange(i as int, i + m) =~= pat@);
            return Some(i);
        } else {
            proof {
                let j = choose|j: int| 0 <= j < m && s@[i + j] != pat@[j];
                assert(s@.subrange(i as int, i + m)[j] != pat@[j]);
            }
        }
        i = i + 1;
    }
    None
}

/// The host of a mirror URL.
pub fn mirror_host_of(url: &str) -> (r: String)
    ensures
        r@ == mirror_host(url@),
{
    proof {
        reveal_strlit("://");
        reveal_strlit("/");
    }
    match find_chars(url, "://") {
        Some(i) => {
            let n = url.unicode_len();
            let rest = url.substring_char(i + 3, n);
            assert(rest@ =~= url@.skip(i + 3));
            match find_chars(rest, "/") {
                Some(j) => {
                    let host = rest.substring_char(0, j);
                    assert(host@ =~= rest@.take(j as int));
                    host.to_string()
                },
                None => rest.to_string(),
            }
        },
        None => "pypi.org".to_string(),
    }
}

/// The shell command that installs a package for a language.
pub open spec fn install_command(config: PackageConfig, package: Seq<char>, language: Language) -> Seq<char> {
    match language {
        Language::Python => {
            let mirror = match config.pypi_mirror {
                Some(m) => m@,
                None => "https://pypi.org/simple"@,
            };
            "pip install --no-cache-dir --index-url "@ + mirror + " --trusted-host "@ + mirror_host(mirror)
                + " "@ + package
        },
        Language::Javascript => {
            let registry = match config.npm_registry {
                Some(m) => m@,
                None => "https://registry.npmjs.org"@,
            };
            "npm install --registry "@ + registry + " "@ + package
        },
        Language::R => {
            let mirror = match config.cran_mirror {
                Some(m) => m@,
                None => "https://cran.rstudio.com"@,
            };
            "R -e \"install.packages('"@ + package + "', repos='"@ + mirror + "')\""@
        },
        _ => Seq::empty(),
    }
}

fn list_contains(v: &Vec<String>, name: &str) -> (r: bool)
    ensures
        r == names(v@).contains(name@),
{
    let mut i: usize = 0;
    while i < v.len()
        invariant
            i <= v@.len(),
            forall|j: int| 0 <= j < i ==> v@[j]@ != name@,
        decreases v@.len() - i,
    {
        if same_text(v[i].as_str(), name) {
            assert(names(v@).contains(name@)) by {
                assert(v@[i as int]@ == name@);
            }
            return true;
        }
        i = i + 1;
    }
    false
}

/// A language without an installer has an empty allowlist, so nothing can be
/// installed for it.
pub proof fn lemma_no_installer(m: &PackageManager, language: Language)
    requires
        !installable(language),
    ensures
        m.allowlist(language) == Set::<Seq<char>>::empty(),
{
}

/// Allowlist-gated package installer with per-user records.
pub struct PackageManager {
    config: PackageConfig,
    python_allowlist: Vec<String>,
    npm_allowlist: Vec<String>,
    r_allowlist: Vec<String>,
    installed: Vec<(String, String)>,
}

impl PackageManager {
    pub closed spec fn spec_config(&self) -> PackageConfig {
        self.config
    }

    /// The allowlist of a language; empty where there is no installer.
    pub closed spec fn allowlist(&self, language: Language) -> Set<Seq<char>> {
        match language {
            Language::Python => names(self.python_allowlist@),
            Language::Javascript => names(self.npm_allowlist@),
            Language::R => names(self.r_allowlist@),
            _ => Set::empty(),
        }
    }

    pub closed spec fn records(&self) -> Seq<(String, String)> {
        self.installed@
    }

    /// Seeds the allowlists with the canonical packages.
    pub fn new(config: PackageConfig) -> (r: PackageManager)
        ensures
            r.spec_config() == config,
            r.records().len() == 0,
            r.allowlist(Language::Python) == seed_set(python_seed()),
            r.allowlist(Language::Javascript) == seed_set(npm_seed()),
            r.allowlist(Language::R) == seed_set(r_seed()),
    {
        let python = python_seed_list();
        let npm = npm_seed_list();
        let r = r_seed_list();
        proof {
            lemma_seed_names(python@, python_seed());
            lemma_seed_names(npm@, npm_seed());
            lemma_seed_names(r@, r_seed());
        }
        PackageManager {
            config,
            python_allowlist: python,
            npm_allowlist: npm,
            r_allowlist: r,
            installed: Vec::new(),
        }
    }

    /// Whether the package is on the language's allowlist.
    pub fn is_allowed(&self, package: &str, language: Language) -> (r: bool)
        ensures
            r == self.allowlist(language).contains(package@),
    {
        match language {
            Language::Python => list_contains(&self.python_allowlist, package),
            Language::Javascript => list_contains(&self.npm_allowlist, package),
            Language::R => list_contains(&self.r_allowlist, package),
            _ => false,
        }
    }

    fn installed_count(&self, user_id: &str) -> (r: usize)
        ensures
            r == count_of(self.records(), user_id@),
    {
        let mut i: usize = 0;
        let mut c: usize = 0;
        while i < self.installed.len()
            invariant
                i <= self.installed@.len(),
                c == count_of(self.installed@.take(i as int), user_id@),
                c <= i,
            decreases self.installed@.len() - i,
        {
            assert(self.installed@.take(i + 1).drop_last() =~= self.installed@.take(i as int));
            if same_text(self.installed[i].0.as_str(), user_id) {
                c = c + 1;
            }
            i = i + 1;
        }
        assert(self.installed@.take(self.installed@.len() as int) =~= self.installed@);
        c
    }

    /// Checks an installation request and gives the command that performs it
    /// inside the user's container.
    pub fn install_command(&self, user_id: &str, package: &str, language: Language) -> (r: Result<String, PackageError>)
        ensures
            !self.spec_config().enabled ==> r matches Err(PackageError::Disabled),
            self.spec_config().enabled && !self.allowlist(language).contains(package@) ==> r matches Err(PackageError::NotAllowed),
            self.spec_config().enabled && self.allowlist(language).contains(package@)
                && count_of(self.records(), user_id@) >= self.spec_config().max_packages_per_session
                ==> r matches Err(PackageError::LimitReached),
            self.spec_config().enabled && self.allowlist(language).contains(package@)
                && count_of(self.records(), user_id@) < self.spec_config().max_packages_per_session
                ==> (r matches Ok(c) && c@ == install_command(self.spec_config(), package@, language)),
            !installable(language) ==> r is Err,
            r is Ok ==> installable(language),
    {
        if !self.config.enabled {
            return Err(PackageError::Disabled);
        }
        if !self.is_allowed(package, language) {
            return Err(PackageError::NotAllowed);
        }
        if self.installed_count(user_id) >= self.config.max_packages_per_session {
            return Err(PackageError::LimitReached);
        }
        match language {
            Language::Python => {
                let mirror = match &self.config.pypi_mirror {
                    Some(m) => m.as_str(),
                    None => "https://pypi.org/simple",
                };
                let host = mirror_host_of(mirror);
                let a = concat("pip install --no-cache-dir --index-url ", mirror);
                let b = concat3(a.as_str(), " --trusted-host ", host.as_str());
                Ok(concat3(b.as_str(), " ", package))
            },
            Language::Javascript => {
                let registry = match &self.config.npm_registry {
                    Some(m) => m.as_str(),
                    None => "https://registry.npmjs.org",
                };
                let a = concat("npm install --registry ", registry);
                Ok(concat3(a.as_str(), " ", package))
            },
            Language::R => {
                let mirror = match &self.config.cran_mirror {
                    Some(m) => m.as_str(),
                    None => "https://cran.rstudio.com",
                };
                let a = concat3("R -e \"install.packages('", package, "', repos='");
                Ok(concat3(a.as_str(), mirror, "')\""))
            },
            _ => Err(PackageError::Unsupported),
        }
    }

    /// Takes the installer's result: on success the package is recorded for
    /// the user and its stdout returned, else its stderr is the error.
    pub fn complete_install(
        &mut self,
        user_id: &str,
        package: &str,
        succeeded: bool,
        stdout: String,
        stderr: &str,
    ) -> (r: Result<String, PackageError>)
        ensures
            final(self).spec_config() == old(self).spec_config(),
            forall|l: Language| final(self).allowlist(l) == old(self).allowlist(l),
            succeeded ==> r == Ok::<String, PackageError>(stdout) && installed_of(final(self).records(), user_id@)
                == installed_of(old(self).records(), user_id@).insert(package@),
            !succeeded ==> (r matches Err(PackageError::InstallFailed(e)) && e@
                == "Package installation failed: "@ + stderr@),
            !succeeded ==> final(self).records() == old(self).records(),
    {
        if !succeeded {
            return Err(PackageError::InstallFailed(concat("Package installation failed: ", stderr)));
        }
        let ghost before = self.installed@;
        if !self.has_record(user_id, package) {
            self.installed.push((user_id.to_string(), package.to_string()));
            assert(installed_of(self.installed@, user_id@) =~= installed_of(before, user_id@).insert(package@)) by {
                assert(self.installed@[before.len() as int].0@ == user_id@);
                assert forall|p: Seq<char>| installed_of(before, user_id@).insert(package@).contains(p) implies installed_of(self.installed@, user_id@).contains(p) by {
                    if p != package@ {
                        let i = choose|i: int| 0 <= i < before.len() && before[i].0@ == user_id@ && before[i].1@ == p;
                        assert(self.installed@[i] == before[i]);
                    }
                }
                assert forall|p: Seq<char>| installed_of(self.installed@, user_id@).contains(p) implies installed_of(before, user_id@).insert(package@).contains(p) by {
                    let i = choose|i: int| 0 <= i < self.installed@.len() && self.installed@[i].0@ == user_id@ && self.installed@[i].1@ == p;
                    if i < before.len() {
                        assert(before[i] == self.installed@[i]);
                    }
                }
            }
        } else {
            assert(installed_of(self.installed@, user_id@) =~= installed_of(before, user_id@).insert(package@));
        }
        Ok(stdout)
    }

    fn has_record(&self, user_id: &str, package: &str) -> (r: bool)
        ensures
            r == installed_of(self.records(), user_id@).contains(package@),
    {
        let mut i: usize = 0;
        while i < self.installed.len()
            invariant
                i <= self.installed@.len(),
                forall|j: int| 0 <= j < i ==> !(self.installed@[j].0@ == user_id@ && self.installed@[j].1@ == package@),
            decreases self.installed@.len() - i,
        {
            if same_text(self.installed[i].0.as_str(), user_id) && same_text(self.installed[i].1.as_str(), package) {
                assert(installed_of(self.installed@, user_id@).contains(package@)) by {
                    assert(self.installed@[i as int].0@ == user_id@ && self.installed@[i as int].1@ == package@);
                }
                return true;
            }
            i = i + 1;
        }
        false
    }

    /// Packages installed for the user.
    pub fn list_installed(&self, user_id: &str) -> (r: Vec<String>)
        ensures
            names(r@) == installed_of(self.records(), user_id@),
    {
        let mut out: Vec<String> = Vec::new();
        let mut i: usize = 0;
        while i < self.installed.len()
            invariant
                i <= self.installed@.len(),
                names(out@) == installed_of(self.installed@.take(i as int), user_id@),
            decreases self.installed@.len() - i,
        {
            let ghost prev = out@;
            if same_text(self.installed[i].0.as_str(), user_id) {
                out.push(self.installed[i].1.clone());
            }
            proof {
                let t = self.installed@.take(i + 1);
                assert forall|p: Seq<char>| names(out@).contains(p) <==> installed_of(t, user_id@).contains(p) by {
                    if names(out@).contains(p) {
                        let k = choose|k: int| 0 <= k < out@.len() && out@[k]@ == p;
                        if k < prev.len() {
                            assert(names(prev).contains(p));
                            let j = choose|j: int| 0 <= j < i && self.installed@.take(i as int)[j].0@ == user_id@ && self.installed@.take(i as int)[j].1@ == p;
                            assert(t[j] == self.installed@.take(i as int)[j]);
                        } else {
                            assert(t[i as int] == self.installed@[i as int]);
                        }
                    }
                    if installed_of(t, user_id@).contains(p) {
                        let j = choose|j: int| 0 <= j < t.len() && t[j].0@ == user_id@ && t[j].1@ == p;
                        if j < i {
                            assert(self.installed@.take(i as int)[j] == t[j]);
                            assert(installed_of(self.installed@.take(i as int), user_id@).contains(p));
                            let k = choose|k: int| 0 <= k < prev.len() && prev[k]@ == p;
                            assert(out@[k] == prev[k]);
                        } else {
                            assert(out@[out@.len() - 1]@ == p);
                        }
                    }
                }
                assert(names(out@) =~= installed_of(t, user_id@));
            }
            i = i + 1;
        }
        assert(self.installed@.take(self.installed@.len() as int) =~= self.installed@);
        out
    }

    /// Adds a package to a language's allowlist.
    pub fn add_to_allowlist(&mut self, package: &str, language: Language) -> (r: Result<(), PackageError>)
        ensures
            final(self).spec_config() == old(self).spec_config(),
            final(self).records() == old(self).records(),
            r is Ok <==> installable(language),
            installable(language) ==> final(self).allowlist(language) == old(self).allowlist(language).insert(package@),
            forall|l: Language| l != language ==> final(self).allowlist(l) == old(self).allowlist(l),
            !installable(language) ==> forall|l: Language| final(self).allowlist(l) == old(self).allowlist(l),
    {
        match language {
            Language::Python => {
                add_name(&mut self.python_allowlist, package);
                Ok(())
            },
            Language::Javascript => {
                add_name(&mut self.npm_allowlist, package);
                Ok(())
            },
            Language::R => {
                add_name(&mut self.r_allowlist, package);
                Ok(())
            },
            _ => Err(PackageError::Unsupported),
        }
    }

    /// The allowlist of a language.
    pub fn get_allowlist(&self, language: Language) -> (r: Vec<String>)
        ensures
            names(r@) == self.allowlist(language),
    {
        match language {
            Language::Python => self.python_allowlist.clone(),
            Language::Javascript => self.npm_allowlist.clone(),
            Language::R => self.r_allowlist.clone(),
            _ => {
                let v: Vec<String> = Vec::new();
                assert(names(v@) =~= Set::empty());
                v
            },
        }
    }

    /// Forgets the packages of a user (the session was reset).
    pub fn clear_user_packages(&mut self, user_id: &str)
        ensures
            final(self).spec_config() == old(self).spec_config(),
            forall|l: Language| final(self).allowlist(l) == old(self).allowlist(l),
            installed_of(final(self).records(), user_id@) == Set::<Seq<char>>::empty(),
    {
        let mut i: usize = 0;
        while i < self.installed.len()
            invariant
                i <= self.installed@.len(),
                self.config == old(self).config,
                self.python_allowlist == old(self).python_allowlist,
                self.npm_allowlist == old(self).npm_allowlist,
                self.r_allowlist == old(self).r_allowlist,
                forall|j: int| 0 <= j < i ==> self.installed@[j].0@ != user_id@,
            decreases self.installed@.len() - i,
        {
            if same_text(self.installed[i].0.as_str(), user_id) {
                let ghost prev = self.installed@;
                self.installed.remove(i);
                assert forall|j: int| 0 <= j < i implies self.installed@[j].0@ != user_id@ by {
                    assert(self.installed@[j] == prev[j]);
                }
            } else {
                i = i + 1;
            }
        }
        assert(installed_of(self.installed@, user_id@) =~= Set::<Seq<char>>::empty());
    }
}

fn add_name(v: &mut Vec<String>, name: &str)
    ensures
        names(final(v)@) == names(old(v)@).insert(name@),
{
    if !list_contains(v, name) {
        let ghost before = v@;
        v.push(name.to_string());
        assert(names(v@) =~= names(before).insert(name@)) by {
            assert(v@[before.len() as int]@ == name@);
            assert forall|n: Seq<char>| names(before).contains(n) implies names(v@).contains(n) by {
                let i = choose|i: int| 0 <= i < before.len() && before[i]@ == n;
                assert(v@[i] == before[i]);
            }
            assert forall|n: Seq<char>| names(v@).contains(n) implies names(before).insert(name@).contains(n) by {
                let i = choose|i: int| 0 <= i < v@.len() && v@[i]@ == n;
                if i < before.len() {
                    assert(v@[i] == before[i]);
                }
            }
        }
    } else {
        assert(names(v@) =~= names(v@).insert(name@));
    }
}

/// The members of a sequence of names, as a set.
pub open spec fn seed_set(items: Seq<Seq<char>>) -> Set<Seq<char>> {
    Set::new(|n: Seq<char>| exists|i: int| 0 <= i < items.len() && items[i] == n)
}

proof fn lemma_seed_names(v: Seq<String>, items: Seq<Seq<char>>)
    requires
        strings_view(v) == items,
    ensures
        names(v) == seed_set(items),
{
    assert(v.len() == items.len()) by {
        assert(strings_view(v).len() == v.len());
    }
    assert forall|n: Seq<char>| names(v).contains(n) <==> seed_set(items).contains(n) by {
        if names(v).contains(n) {
            let i = choose|i: int| 0 <= i < v.len() && v[i]@ == n;
            assert(strings_view(v)[i] == items[i]);
        }
        if seed_set(items).contains(n) {
            let i = choose|i: int| 0 <= i < items.len() && items[i] == n;
            assert(strings_view(v)[i] == items[i]);
        }
    }
    assert(names(v) =~= seed_set(items));
}

/// Python packages allowed from the start.
pub open spec fn python_seed() -> Seq<Seq<char>> {
    seq![
        "requests"@,
        "beautifulsoup4"@,
        "lxml"@,
        "pillow"@,
        "openpyxl"@,
        "python-dateutil"@,
        "pytz"@,
        "tabulate"@,
        "tqdm"@,
        "jinja2"@,
        "pyyaml"@,
        "toml"@,
        "python-dotenv"@,
        "regex"@,
        "chardet"@,
        "jsonschema"@,
        "orjson"@,
    ]
}

fn python_seed_list() -> (r: Vec<String>)
    ensures
        strings_view(r@) == python_seed(),
{
    let mut v: Vec<String> = Vec::new();
    assert(strings_view(v@) =~= Seq::empty());
    push_text(&mut v, "requests");
    push_text(&mut v, "beautifulsoup4");
    push_text(&mut v, "lxml");
    push_text(&mut v, "pillow");
    push_text(&mut v, "openpyxl");
    push_text(&mut v, "python-dateutil");
    push_text(&mut v, "pytz");
    push_text(&mut v, "tabulate");
    push_text(&mut v, "tqdm");
    push_text(&mut v, "jinja2");
    push_text(&mut v, "pyyaml");
    push_text(&mut v, "toml");
    push_text(&mut v, "python-dotenv");
    push_text(&mut v, "regex");
    push_text(&mut v, "chardet");
    push_text(&mut v, "jsonschema");
    push_text(&mut v, "orjson");
    assert(strings_view(v@) =~= python_seed());
    v
}

/// npm packages allowed from the start.
pub open spec fn npm_seed() -> Seq<Seq<char>> {
    seq![
        "lodash"@,
        "moment"@,
        "axios"@,
        "express"@,
        "chalk"@,
        "commander"@,
        "inquirer"@,
        "ora"@,
        "cli-table3"@,
    ]
}

fn npm_seed_list() -> (r: Vec<String>)
    ensures
        strings_view(r@) == npm_seed(),
{
    let mut v: Vec<String> = Vec::new();
    assert(strings_view(v@) =~= Seq::empty());
    push_text(&mut v, "lodash");
    push_text(&mut v, "moment");
    push_text(&mut v, "axios");
    push_text(&mut v, "express");
    push_text(&mut v, "chalk");
    push_text(&mut v, "commander");
    push_text(&mut v, "inquirer");
    push_text(&mut v, "ora");
    push_text(&mut v, "cli-table3");
    assert(strings_view(v@) =~= npm_seed());
    v
}

/// CRAN packages allowed from the start.
pub open spec fn r_seed() -> Seq<Seq<char>> {
    seq![
        "jsonlite"@,
        "httr"@,
        "xml2"@,
        "lubridate"@,
        "stringr"@,
        "readxl"@,
        "writexl"@,
        "glue"@,
    ]
}

fn r_seed_list() -> (r: Vec<String>)
    ensures
        strings_view(r@) == r_seed(),
{
    let mut v: Vec<String> = Vec::new();
    assert(strings_view(v@) =~= Seq::empty());
    push_text(&mut v, "jsonlite");
    push_text(&mut v, "httr");
    push_text(&mut v, "xml2");
    push_text(&mut v, "lubridate");
    push_text(&mut v, "stringr");
    push_text(&mut v, "readxl");
    push_text(&mut v, "writexl");
    push_text(&mut v, "glue");
    assert(strings_view(v@) =~= r_seed());
    v
}

} // verus!
