//! The project repository: a workspace's samples by name, its feature
//! switches, and the layout of its files.
use crate::sample::Sample;
use vstd::prelude::*;

verus! {

/// The samples of a list by name. Names in a well-formed list are distinct,
/// so each name picks out one sample.
pub open spec fn samples_map(v: Seq<Sample>) -> Map<Seq<char>, Sample> {
    Map::new(
        |k: Seq<char>| exists|i: int| 0 <= i < v.len() && #[trigger] v[i].name@ == k,
        |k: Seq<char>| v[choose|i: int| 0 <= i < v.len() && #[trigger] v[i].name@ == k],
    )
}

/// No two samples of a list share a name.
pub open spec fn names_distinct(v: Seq<Sample>) -> bool {
    forall|i: int, j: int|
        0 <= i < v.len() && 0 <= j < v.len() && i != j ==> v[i].name@ != v[j].name@
}

/// Two records of one sample that differ at most in where it is stored.
pub open spec fn same_but_path(a: Sample, b: Sample) -> bool {
    &&& a.name == b.name
    &&& a.magic == b.magic
    &&& a.md5 == b.md5
    &&& a.sha256 == b.sha256
    &&& a.sha512 == b.sha512
    &&& a.local_report == b.local_report
    &&& a.vt_report == b.vt_report
}

proof fn lemma_map_at(v: Seq<Sample>, i: int)
    requires
        names_distinct(v),
        0 <= i < v.len(),
    ensures
        samples_map(v).contains_key(v[i].name@),
        samples_map(v)[v[i].name@] == v[i],
{
    let k = v[i].name@;
    assert(v[i].name@ == k);
    let j = choose|j: int| 0 <= j < v.len() && #[trigger] v[j].name@ == k;
    assert(j == i);
}

proof fn lemma_map_absent(v: Seq<Sample>, k: Seq<char>)
    requires
        forall|i: int| 0 <= i < v.len() ==> #[trigger] v[i].name@ != k,
    ensures
        !samples_map(v).contains_key(k),
{
}

proof fn lemma_map_value_wf(v: Seq<Sample>, k: Seq<char>)
    requires
        forall|i: int| 0 <= i < v.len() ==> (#[trigger] v[i]).wf(),
        samples_map(v).contains_key(k),
    ensures
        samples_map(v)[k].wf(),
{
    let j = choose|j: int| 0 <= j < v.len() && #[trigger] v[j].name@ == k;
    assert(v[j].wf());
}

/// A map with each sample of a list recorded under its name in turn, so that
/// of samples sharing a name the last one stays.
pub open spec fn inserted_all(m: Map<Seq<char>, Sample>, v: Seq<Sample>) -> Map<Seq<char>, Sample>
    decreases v.len(),
{
    if v.len() == 0 {
        m
    } else {
        inserted_all(m, v.drop_last()).insert(v.last().name@, v.last())
    }
}

/// Which optional features a project uses.
#[derive(Debug, Clone, Copy, PartialEq, Eq, Structural)]
pub struct PluginConfig {
    pub virus_total: bool,
}

/// What the persisted document of a workspace holds: its name, its samples
/// and its feature switches.
#[derive(Debug)]
pub struct Config {
    pub name: String,
    pub samples: Vec<Sample>,
    pub plugins: PluginConfig,
}

/// Where a name stands in a list of samples, if it does.
fn find(v: &Vec<Sample>, name: &str) -> (r: Option<usize>)
    ensures
        match r {
            Some(i) => i < v@.len() && v@[i as int].name@ == name@,
            None => forall|i: int| 0 <= i < v@.len() ==> #[trigger] v@[i].name@ != name@,
        },
{
    let key = name.to_string();
    let mut i: usize = 0;
    while i < v.len()
        invariant
            i <= v@.len(),
            key@ == name@,
            forall|k: int| 0 <= k < i ==> #[trigger] v@[k].name@ != name@,
        decreases v.len() - i,
    {
        if v[i].name == key {
            return Some(i);
        }
        i = i + 1;
    }
    None
}

impl Config {
    /// Every sample is well formed and no two share a name.
    pub open spec fn wf(&self) -> bool {
        &&& names_distinct(self.samples@)
        &&& forall|i: int| 0 <= i < self.samples@.len() ==> (#[trigger] self.samples@[i]).wf()
    }

    /// The samples by name.
    pub open spec fn sample_map(&self) -> Map<Seq<char>, Sample> {
        samples_map(self.samples@)
    }

    /// A project without samples, whose optional features are off.
    pub fn new(name: &str) -> (r: Config)
        ensures
            r.wf(),
            r.name@ == name@,
            r.sample_map() == Map::<Seq<char>, Sample>::empty(),
            r.plugins.virus_total == false,
    {
        let r = Config {
            name: name.to_string(),
            samples: Vec::new(),
            plugins: PluginConfig { virus_total: false },
        };
        assert(r.sample_map() =~= Map::<Seq<char>, Sample>::empty());
        r
    }

    /// Records a sample under its name; one already recorded under that name
    /// is replaced.
    pub fn insert(&mut self, sample: Sample)
        requires
            old(self).wf(),
            sample.wf(),
        ensures
            final(self).wf(),
            final(self).sample_map() == old(self).sample_map().insert(sample.name@, sample),
            final(self).name == old(self).name,
            final(self).plugins == old(self).plugins,
    {
        let ghost before = self.samples@;
        let ghost key = sample.name@;
        match find(&self.samples, sample.name.as_str()) {
            Some(i) => {
                self.samples.set(i, sample);
                proof {
                    let after = self.samples@;
                    assert(after == before.update(i as int, sample));
                    assert forall|k: int| 0 <= k < after.len() implies (#[trigger] after[k]).wf() by {
                        if k != i {
                            assert(after[k] == before[k]);
                        }
                    }
                    assert forall|a: int, b: int|
                        0 <= a < after.len() && 0 <= b < after.len() && a != b implies after[a].name@
                        != after[b].name@ by {
                        assert(after[a].name@ == before[a].name@);
                        assert(after[b].name@ == before[b].name@);
                    }
                    let m = samples_map(before).insert(key, sample);
                    assert forall|k: Seq<char>| #[trigger]
                        samples_map(after).contains_key(k) == m.contains_key(k) by {
                        if m.contains_key(k) && k != key {
                            let j = choose|j: int| 0 <= j < before.len() && #[trigger] before[j].name@ == k;
                            assert(after[j].name@ == k);
                        }
                        if k == key {
                            assert(after[i as int] == sample);
                        }
                        if samples_map(after).contains_key(k) {
                            let j = choose|j: int| 0 <= j < after.len() && #[trigger] after[j].name@ == k;
                            assert(before[j].name@ == k);
                        }
                    }
                    assert forall|k: Seq<char>| #[trigger]
                        samples_map(after).contains_key(k) implies samples_map(after)[k] == m[k] by {
                        let j = choose|j: int| 0 <= j < after.len() && #[trigger] after[j].name@ == k;
                        lemma_map_at(after, j);
                        if j != i {
                            assert(after[j] == before[j]);
                            lemma_map_at(before, j);
                        }
                    }
                    assert(samples_map(after) =~= m);
                }
            },
            None => {
                self.samples.push(sample);
                proof {
                    let after = self.samples@;
                    assert(after == before.push(sample));
                    assert forall|k: int| 0 <= k < after.len() implies (#[trigger] after[k]).wf() by {
                        if k < before.len() {
                            assert(after[k] == before[k]);
                        }
                    }
                    assert forall|a: int, b: int|
                        0 <= a < after.len() && 0 <= b < after.len() && a != b implies after[a].name@
                        != after[b].name@ by {
                        if a < before.len() {
                            assert(after[a] == before[a]);
                        }
                        if b < before.len() {
                            assert(after[b] == before[b]);
                        }
                    }
                    let m = samples_map(before).insert(key, sample);
                    assert forall|k: Seq<char>| #[trigger]
                        samples_map(after).contains_key(k) == m.contains_key(k) by {
                        if m.contains_key(k) && k != key {
                            let j = choose|j: int| 0 <= j < before.len() && #[trigger] before[j].name@ == k;
                            assert(after[j] == before[j]);
                        }
                        if k == key {
                            assert(after[before.len() as int] == sample);
                        }
                        if samples_map(after).contains_key(k) && k != key {
                            let j = choose|j: int| 0 <= j < after.len() && #[trigger] after[j].name@ == k;
                            assert(j < before.len());
                            assert(before[j] == after[j]);
                        }
                    }
                    assert forall|k: Seq<char>| #[trigger]
                        samples_map(after).contains_key(k) implies samples_map(after)[k] == m[k] by {
                        let j = choose|j: int| 0 <= j < after.len() && #[trigger] after[j].name@ == k;
                        lemma_map_at(after, j);
                        if j < before.len() {
                            assert(after[j] == before[j]);
                            lemma_map_at(before, j);
                        }
                    }
                    assert(samples_map(after) =~= m);
                }
            },
        }
    }

    /// The record of a project with these switches and these samples, each
    /// recorded under its name; of samples sharing a name, the last one
    /// stays.
    pub fn from_samples(name: &str, plugins: PluginConfig, samples: Vec<Sample>) -> (r: Config)
        requires
            forall|i: int| 0 <= i < samples@.len() ==> (#[trigger] samples@[i]).wf(),
        ensures
            r.wf(),
            r.name@ == name@,
            r.plugins == plugins,
            r.sample_map() == inserted_all(Map::<Seq<char>, Sample>::empty(), samples@),
    {
        let mut config = Config::new(name);
        config.plugins = plugins;
        let ghost all = samples@;
        assert(all.len() == samples.len());
        let mut rest = samples;
        let mut k: usize = 0;
        assert(all.take(0) =~= Seq::<Sample>::empty());
        assert(config.sample_map() =~= inserted_all(Map::<Seq<char>, Sample>::empty(), all.take(0)));
        while rest.len() > 0
            invariant
                config.wf(),
                config.name@ == name@,
                config.plugins == plugins,
                k <= all.len(),
                all.len() <= usize::MAX,
                rest@ == all.skip(k as int),
                config.sample_map() == inserted_all(Map::<Seq<char>, Sample>::empty(), all.take(k as int)),
                forall|i: int| 0 <= i < all.len() ==> (#[trigger] all[i]).wf(),
            decreases rest.len(),
        {
            assert(k < all.len());
            let sample = rest.remove(0);
            assert(sample == all[k as int]);
            assert(all.take(k + 1).drop_last() =~= all.take(k as int));
            config.insert(sample);
            assert(rest@ =~= all.skip(k + 1));
            k = k + 1;
        }
        assert(all.take(k as int) =~= all);
        config
    }

    /// Takes the sample of that name out of the record, and hands it back;
    /// nothing changes where there is none.
    pub fn remove(&mut self, name: &str) -> (r: Option<Sample>)
        requires
            old(self).wf(),
        ensures
            final(self).wf(),
            final(self).sample_map() == old(self).sample_map().remove(name@),
            r is Some <==> old(self).sample_map().contains_key(name@),
            r is Some ==> r->Some_0 == old(self).sample_map()[name@],
            final(self).name == old(self).name,
            final(self).plugins == old(self).plugins,
    {
        let ghost before = self.samples@;
        match find(&self.samples, name) {
            Some(i) => {
                proof {
                    lemma_map_at(before, i as int);
                }
                let removed = self.samples.remove(i);
                proof {
                    let after = self.samples@;
                    assert(after == before.remove(i as int));
                    assert forall|k: int| 0 <= k < after.len() implies (#[trigger] after[k]).wf() by {
                        if k < i {
                            assert(after[k] == before[k]);
                        } else {
                            assert(after[k] == before[k + 1]);
                        }
                    }
                    assert forall|a: int, b: int|
                        0 <= a < after.len() && 0 <= b < after.len() && a != b implies after[a].name@
                        != after[b].name@ by {
                        let a0 = if a < i { a } else { a + 1 };
                        let b0 = if b < i { b } else { b + 1 };
                        assert(after[a] == before[a0]);
                        assert(after[b] == before[b0]);
                    }
                    let m = samples_map(before).remove(name@);
                    assert forall|k: Seq<char>| #[trigger]
                        samples_map(after).contains_key(k) == m.contains_key(k) by {
                        if m.contains_key(k) {
                            let j = choose|j: int| 0 <= j < before.len() && #[trigger] before[j].name@ == k;
                            assert(j != i);
                            let j1 = if j < i { j } else { j - 1 };
                            assert(after[j1] == before[j]);
                        }
                        if samples_map(after).contains_key(k) {
                            let j = choose|j: int| 0 <= j < after.len() && #[trigger] after[j].name@ == k;
                            let j0 = if j < i { j } else { j + 1 };
                            assert(after[j] == before[j0]);
                            assert(j0 != i);
                        }
                    }
                    assert forall|k: Seq<char>| #[trigger]
                        samples_map(after).contains_key(k) implies samples_map(after)[k] == m[k] by {
                        let j = choose|j: int| 0 <= j < after.len() && #[trigger] after[j].name@ == k;
                        let j0 = if j < i { j } else { j + 1 };
                        assert(after[j] == before[j0]);
                        lemma_map_at(after, j);
                        lemma_map_at(before, j0);
                    }
                    assert(samples_map(after) =~= m);
                }
                Some(removed)
            },
            None => {
                proof {
                    lemma_map_absent(before, name@);
                    assert(samples_map(before) =~= samples_map(before).remove(name@));
                }
                None
            },
        }
    }
}

/// A path with one more component: the separator is added only where the
/// base does not end in one, and an empty base gives the component alone.
pub open spec fn joined(base: Seq<char>, component: Seq<char>) -> Seq<char> {
    if base.len() == 0 {
        component
    } else if base.last() == '/' {
        base + component
    } else {
        base + "/"@ + component
    }
}

/// Joins a component to a path.
pub fn join_path(base: &str, component: &str) -> (r: String)
    ensures
        r@ == joined(base@, component@),
{
    let n = base.unicode_len();
    if n == 0 {
        component.to_string()
    } else if base.get_char(n - 1) == '/' {
        base.to_string().concat(component)
    } else {
        base.to_string().concat("/").concat(component)
    }
}

/// The directory of a workspace that holds the repository's own files.
pub open spec fn project_dir_name() -> Seq<char> {
    ".malstrap"@
}

/// The persisted document's file name in that directory.
pub open spec fn config_file_name() -> Seq<char> {
    "config.json"@
}

/// Two records of one sample that differ at most in their local notes.
pub open spec fn same_but_notes(a: Sample, b: Sample) -> bool {
    &&& a.name == b.name
    &&& a.path == b.path
    &&& a.magic == b.magic
    &&& a.md5 == b.md5
    &&& a.sha256 == b.sha256
    &&& a.sha512 == b.sha512
    &&& a.vt_report == b.vt_report
}

/// The entries of the user's settings store that the repository reads: the
/// service key, and the switch that allows enrichment at all.
#[derive(Debug)]
pub struct Settings {
    pub vt_key: Option<String>,
    pub vt_enable: Option<String>,
}

/// Whether the settings allow enrichment: the switch reads exactly `yes`.
pub open spec fn enrichment_allowed(s: Settings) -> bool {
    match s.vt_enable {
        Some(v) => v@ == "yes"@,
        None => false,
    }
}

/// A workspace's repository: where its files lie, its persisted record, and
/// the user's settings it was opened with.
#[derive(Debug)]
pub struct ProjectManager {
    pub path: String,
    pub config: Config,
    pub config_path: String,
    pub settings: Settings,
}

impl ProjectManager {
    /// The record is well formed.
    pub open spec fn wf(&self) -> bool {
        self.config.wf()
    }

    /// The samples by name.
    pub open spec fn sample_map(&self) -> Map<Seq<char>, Sample> {
        self.config.sample_map()
    }

    /// Where the repository's directory and document lie for a workspace.
    pub open spec fn lays_out(&self, path: Seq<char>) -> bool {
        &&& self.path@ == joined(path, project_dir_name())
        &&& self.config_path@ == joined(joined(path, project_dir_name()), config_file_name())
    }

    /// The repository of a new workspace at `path`: no samples, optional
    /// features off, and named after its directory.
    pub fn new(path: &str, settings: Settings) -> (r: ProjectManager)
        ensures
            r.wf(),
            r.lays_out(path@),
            r.config.name@ == project_dir_name(),
            r.sample_map() == Map::<Seq<char>, Sample>::empty(),
            r.config.plugins.virus_total == false,
            r.settings == settings,
    {
        let project_path = join_path(path, ".malstrap");
        let config_path = join_path(project_path.as_str(), "config.json");
        ProjectManager {
            path: project_path,
            config: Config::new(".malstrap"),
            config_path,
            settings,
        }
    }

    /// The repository of an existing workspace at `path`, with the record
    /// read from its document.
    pub fn open(path: &str, settings: Settings, config: Config) -> (r: ProjectManager)
        requires
            config.wf(),
        ensures
            r.wf(),
            r.lays_out(path@),
            r.config == config,
            r.settings == settings,
    {
        let project_path = join_path(path, ".malstrap");
        let config_path = join_path(project_path.as_str(), "config.json");
        ProjectManager { path: project_path, config, config_path, settings }
    }

    /// Switches enrichment on or off for this project.
    pub fn vt_enable(&mut self, enable: bool)
        ensures
            final(self).config.plugins.virus_total == enable,
            final(self).config.samples == old(self).config.samples,
            final(self).config.name == old(self).config.name,
            final(self).path == old(self).path,
            final(self).config_path == old(self).config_path,
            final(self).settings == old(self).settings,
    {
        self.config.plugins.virus_total = enable;
    }

    /// The project's feature switches.
    pub fn get_plugin_config(&self) -> (r: PluginConfig)
        ensures
            r == self.config.plugins,
    {
        self.config.plugins
    }

    /// All samples, in no promised order.
    pub fn list_samples(&self) -> (r: &Vec<Sample>)
        ensures
            r@ == self.config.samples@,
    {
        &self.config.samples
    }

    /// The sample of that name, if there is one.
    pub fn get_sample(&self, sample_name: &str) -> (r: Option<&Sample>)
        requires
            self.wf(),
        ensures
            r is Some <==> self.sample_map().contains_key(sample_name@),
            r is Some ==> *r->Some_0 == self.sample_map()[sample_name@],
    {
        match find(&self.config.samples, sample_name) {
            Some(i) => {
                proof {
                    lemma_map_at(self.config.samples@, i as int);
                }
                Some(&self.config.samples[i])
            },
            None => {
                proof {
                    lemma_map_absent(self.config.samples@, sample_name@);
                }
                None
            },
        }
    }

    /// The key to enrich new samples with: only where the settings allow
    /// enrichment, this project has it switched on, and a key is set.
    pub fn enrichment_key(&self) -> (r: Option<String>)
        ensures
            r == (if enrichment_allowed(self.settings) && self.config.plugins.virus_total {
                self.settings.vt_key
            } else {
                None
            }),
    {
        let allowed = match &self.settings.vt_enable {
            Some(v) => {
                let yes = String::from_str("yes");
                *v == yes
            },
            None => false,
        };
        if allowed && self.config.plugins.virus_total {
            match &self.settings.vt_key {
                Some(k) => Some(k.clone()),
                None => None,
            }
        } else {
            None
        }
    }

    /// Records a sample that has been copied to its place: its path becomes
    /// its type's directory followed by its name, and it replaces any sample
    /// of the same name. A sample may carry a threat-intelligence snapshot
    /// only where enrichment is allowed, switched on and keyed.
    pub fn add_sample(&mut self, sample: Sample)
        requires
            old(self).wf(),
            sample.wf(),
            sample.vt_report is Some ==> (enrichment_allowed(old(self).settings)
                && old(self).config.plugins.virus_total && old(self).settings.vt_key is Some),
        ensures
            final(self).wf(),
            final(self).sample_map() == old(self).sample_map().insert(
                sample.name@,
                final(self).sample_map()[sample.name@],
            ),
            same_but_path(final(self).sample_map()[sample.name@], sample),
            final(self).sample_map()[sample.name@].path@ == sample.magic@ + "/"@ + sample.name@,
            final(self).config.name == old(self).config.name,
            final(self).config.plugins == old(self).config.plugins,
            final(self).path == old(self).path,
            final(self).config_path == old(self).config_path,
            final(self).settings == old(self).settings,
    {
        let mut placed = sample;
        placed.path = placed.storage_path();
        let ghost stored = placed;
        self.config.insert(placed);
        assert(self.sample_map()[stored.name@] == stored);
    }

    /// Forgets the sample of that name, once its file has been deleted, and
    /// hands it back; nothing changes where there is none.
    pub fn del_sample(&mut self, sample_name: &str) -> (r: Option<Sample>)
        requires
            old(self).wf(),
        ensures
            final(self).wf(),
            final(self).sample_map() == old(self).sample_map().remove(sample_name@),
            r is Some <==> old(self).sample_map().contains_key(sample_name@),
            r is Some ==> r->Some_0 == old(self).sample_map()[sample_name@],
            final(self).config.name == old(self).config.name,
            final(self).config.plugins == old(self).config.plugins,
            final(self).path == old(self).path,
            final(self).config_path == old(self).config_path,
            final(self).settings == old(self).settings,
    {
        self.config.remove(sample_name)
    }

    /// Adds a tag to the sample of that name; `false`, and nothing changes,
    /// where there is none.
    pub fn add_tag(&mut self, sample_name: &str, tag: &str) -> (r: bool)
        requires
            old(self).wf(),
        ensures
            final(self).wf(),
            r == old(self).sample_map().contains_key(sample_name@),
            r ==> {
                &&& final(self).sample_map() == old(self).sample_map().insert(
                    sample_name@,
                    final(self).sample_map()[sample_name@],
                )
                &&& same_but_notes(
                    final(self).sample_map()[sample_name@],
                    old(self).sample_map()[sample_name@],
                )
                &&& final(self).sample_map()[sample_name@].tags() == old(self).sample_map()[sample_name@].tags().insert(tag@)
            },
            !r ==> final(self).sample_map() == old(self).sample_map(),
            final(self).config.name == old(self).config.name,
            final(self).config.plugins == old(self).config.plugins,
            final(self).path == old(self).path,
            final(self).config_path == old(self).config_path,
            final(self).settings == old(self).settings,
    {
        let ghost before = self.sample_map();
        let ghost listed = self.config.samples@;
        match self.config.remove(sample_name) {
            Some(sample) => {
                let mut sample = sample;
                proof {
                    lemma_map_value_wf(listed, sample_name@);
                }
                sample.add_tag(tag);
                let ghost stored = sample;
                self.config.insert(sample);
                proof {
                    assert(self.sample_map()[sample_name@] == stored);
                    assert(self.sample_map() =~= before.insert(sample_name@, stored));
                }
                true
            },
            None => false,
        }
    }

    /// Takes a tag away from the sample of that name; `false`, and nothing
    /// changes, where there is none. Once the last tag is gone the sample's
    /// local notes are absent.
    pub fn remove_tag(&mut self, sample_name: &str, tag: &str) -> (r: bool)
        requires
            old(self).wf(),
        ensures
            final(self).wf(),
            r == old(self).sample_map().contains_key(sample_name@),
            r ==> {
                &&& final(self).sample_map() == old(self).sample_map().insert(
                    sample_name@,
                    final(self).sample_map()[sample_name@],
                )
                &&& same_but_notes(
                    final(self).sample_map()[sample_name@],
                    old(self).sample_map()[sample_name@],
                )
                &&& final(self).sample_map()[sample_name@].tags() == old(self).sample_map()[sample_name@].tags().remove(tag@)
                &&& (final(self).sample_map()[sample_name@].local_report is None <==> final(self).sample_map()[sample_name@].tags().is_empty())
            },
            !r ==> final(self).sample_map() == old(self).sample_map(),
            final(self).config.name == old(self).config.name,
            final(self).config.plugins == old(self).config.plugins,
            final(self).path == old(self).path,
            final(self).config_path == old(self).config_path,
            final(self).settings == old(self).settings,
    {
        let ghost before = self.sample_map();
        let ghost listed = self.config.samples@;
        match self.config.remove(sample_name) {
            Some(sample) => {
                let mut sample = sample;
                proof {
                    lemma_map_value_wf(listed, sample_name@);
                }
                sample.remove_tag(tag);
                let ghost stored = sample;
                self.config.insert(sample);
                proof {
                    assert(self.sample_map()[sample_name@] == stored);
                    assert(self.sample_map() =~= before.insert(sample_name@, stored));
                }
                true
            },
            None => false,
        }
    }
}

/// Adding a sample under a name that is already recorded replaces the earlier
/// record: the names recorded stay the same, and the name leads to the later
/// sample alone.
pub proof fn lemma_re_add_overwrites(
    m: Map<Seq<char>, Sample>,
    name: Seq<char>,
    first: Sample,
    second: Sample,
)
    ensures
        m.insert(name, first).insert(name, second) == m.insert(name, second),
        m.insert(name, first).insert(name, second).dom() == m.insert(name, first).dom(),
        m.insert(name, first).insert(name, second)[name] == second,
{
    assert(m.insert(name, first).insert(name, second) =~= m.insert(name, second));
    assert(m.insert(name, first).insert(name, second).dom() =~= m.insert(name, first).dom());
}

} // verus!
