//! The model registry: friendly names mapped to repository, file and quantization, built
//! from several sources where a later source overrides an earlier one; and the layout of
//! the configuration and cache directories.

use crate::manifest::{ModelSpec, ModelSpecView};
use crate::protocol::{ModelDescriptor, ModelDescriptorView};
use crate::text::same_text;
use vstd::prelude::*;
use vstd::string::*;

verus! {

/// One registry entry; `name` is its key.
#[derive(Debug, PartialEq, Eq)]
pub struct ModelEntry {
    pub name: String,
    pub repo: String,
    pub filename: String,
    pub quantization: String,
}

/// Mathematical content of a [`ModelEntry`].
pub struct ModelEntryView {
    pub name: Seq<char>,
    pub repo: Seq<char>,
    pub filename: Seq<char>,
    pub quantization: Seq<char>,
}

impl ModelEntryView {
    /// The specification this entry resolves to.
    pub open spec fn spec(self) -> ModelSpecView {
        ModelSpecView { repo: self.repo, filename: self.filename, quantization: self.quantization }
    }

    /// The entry as the protocol lists it.
    pub open spec fn descriptor(self) -> ModelDescriptorView {
        ModelDescriptorView { id: self.name, purpose: "Inference"@ }
    }
}

impl View for ModelEntry {
    type V = ModelEntryView;

    open spec fn view(&self) -> ModelEntryView {
        ModelEntryView {
            name: self.name@,
            repo: self.repo@,
            filename: self.filename@,
            quantization: self.quantization@,
        }
    }
}

impl Clone for ModelEntry {
    fn clone(&self) -> (copy: Self)
        ensures
            copy@ == self@,
    {
        ModelEntry {
            name: self.name.clone(),
            repo: self.repo.clone(),
            filename: self.filename.clone(),
            quantization: self.quantization.clone(),
        }
    }
}

/// The views of a list of entries, in order.
pub open spec fn entry_views(list: Seq<ModelEntry>) -> Seq<ModelEntryView> {
    Seq::new(list.len(), |i: int| list[i]@)
}

/// Index of the first entry called `name`, or the length of the list if there is none.
pub open spec fn spec_position(list: Seq<ModelEntryView>, name: Seq<char>) -> int
    decreases list.len(),
{
    if list.len() == 0 {
        0
    } else if list[0].name == name {
        0
    } else {
        1 + spec_position(list.skip(1), name)
    }
}

/// The first entry called `name`, if any.
pub open spec fn spec_lookup(list: Seq<ModelEntryView>, name: Seq<char>) -> Option<
    ModelEntryView,
> {
    let at = spec_position(list, name);
    if at < list.len() {
        Some(list[at])
    } else {
        None
    }
}

/// The list with `entry` recorded: in place of the first entry of the same name, or at the
/// end if the name is new.
pub open spec fn spec_upsert(list: Seq<ModelEntryView>, entry: ModelEntryView) -> Seq<
    ModelEntryView,
> {
    let at = spec_position(list, entry.name);
    if at < list.len() {
        list.update(at, entry)
    } else {
        list.push(entry)
    }
}

/// The list with every entry of `source` recorded, from first to last.
pub open spec fn spec_overlay(list: Seq<ModelEntryView>, source: Seq<ModelEntryView>) -> Seq<
    ModelEntryView,
>
    decreases source.len(),
{
    if source.len() == 0 {
        list
    } else {
        spec_upsert(spec_overlay(list, source.drop_last()), source.last())
    }
}

/// No two entries of the list share a name.
pub open spec fn names_distinct(list: Seq<ModelEntryView>) -> bool {
    forall|i: int, j: int| 0 <= i < j < list.len() ==> list[i].name != list[j].name
}

/// `spec_position` is the one index that is preceded by no entry of that name and either
/// holds such an entry or is the end of the list.
pub proof fn lemma_position(list: Seq<ModelEntryView>, name: Seq<char>, at: int)
    requires
        0 <= at <= list.len(),
        forall|j: int| 0 <= j < at ==> list[j].name != name,
        at < list.len() ==> list[at].name == name,
    ensures
        spec_position(list, name) == at,
    decreases list.len(),
{
    if list.len() != 0 && at != 0 {
        let rest = list.skip(1);
        assert forall|j: int| 0 <= j < at - 1 implies rest[j].name != name by {
            assert(rest[j] == list[j + 1]);
        }
        lemma_position(rest, name, at - 1);
    }
}

/// `spec_position` stays within the list, no earlier entry has the name, and the entry it
/// points at has it.
pub proof fn lemma_position_found(list: Seq<ModelEntryView>, name: Seq<char>)
    ensures
        0 <= spec_position(list, name) <= list.len(),
        forall|j: int| 0 <= j < spec_position(list, name) ==> list[j].name != name,
        spec_position(list, name) < list.len() ==> list[spec_position(list, name)].name == name,
    decreases list.len(),
{
    if list.len() != 0 && list[0].name != name {
        let rest = list.skip(1);
        lemma_position_found(rest, name);
        let at = spec_position(rest, name);
        assert forall|j: int| 0 <= j < at + 1 implies list[j].name != name by {
            if j > 0 {
                assert(rest[j - 1] == list[j]);
            }
        }
        if at < rest.len() {
            assert(rest[at] == list[at + 1]);
        }
    }
}

/// Recording an entry makes it the one found under its name and leaves every other name
/// as it was: a later record overrides an earlier one.
pub proof fn lemma_upsert_lookup(list: Seq<ModelEntryView>, entry: ModelEntryView, name: Seq<char>)
    ensures
        spec_lookup(spec_upsert(list, entry), name) == if name == entry.name {
            Some(entry)
        } else {
            spec_lookup(list, name)
        },
{
    let at = spec_position(list, entry.name);
    let after = spec_upsert(list, entry);
    lemma_position_found(list, entry.name);
    lemma_position_found(list, name);
    if name == entry.name {
        lemma_position(after, name, at);
    } else {
        let found = spec_position(list, name);
        if found < list.len() {
            lemma_position(after, name, found);
        } else {
            lemma_position(after, name, after.len() as int);
        }
    }
}

/// Recording an entry keeps names distinct.
pub proof fn lemma_upsert_distinct(list: Seq<ModelEntryView>, entry: ModelEntryView)
    requires
        names_distinct(list),
    ensures
        names_distinct(spec_upsert(list, entry)),
{
    lemma_position_found(list, entry.name);
    let at = spec_position(list, entry.name);
    let after = spec_upsert(list, entry);
    assert forall|i: int, j: int| 0 <= i < j < after.len() implies after[i].name
        != after[j].name by {
        if at < list.len() {
            if i == at {
                assert(list[at].name != list[j].name);
            } else if j == at {
                assert(list[i].name != list[at].name);
            }
        }
    }
}

/// Laying a source over a list keeps names distinct.
pub proof fn lemma_overlay_distinct(list: Seq<ModelEntryView>, source: Seq<ModelEntryView>)
    requires
        names_distinct(list),
    ensures
        names_distinct(spec_overlay(list, source)),
    decreases source.len(),
{
    if source.len() != 0 {
        lemma_overlay_distinct(list, source.drop_last());
        lemma_upsert_distinct(spec_overlay(list, source.drop_last()), source.last());
    }
}

/// Index of the first entry called `name`, or the length of the list if there is none.
pub fn position(list: &Vec<ModelEntry>, name: &str) -> (at: usize)
    ensures
        at == spec_position(entry_views(list@), name@),
{
    let mut i: usize = 0;
    while i < list.len()
        invariant
            i <= list.len(),
            forall|j: int| 0 <= j < i ==> list[j].name@ != name@,
        decreases list.len() - i,
    {
        if same_text(list[i].name.as_str(), name) {
            proof {
                lemma_position(entry_views(list@), name@, i as int);
            }
            return i;
        }
        i += 1;
    }
    proof {
        lemma_position(entry_views(list@), name@, i as int);
    }
    i
}

/// Records `entry` in the list: in place of the first entry of the same name, or at the end
/// if the name is new.
pub fn upsert(list: &mut Vec<ModelEntry>, entry: ModelEntry)
    ensures
        entry_views(final(list)@) == spec_upsert(entry_views(old(list)@), entry@),
{
    let at = position(list, entry.name.as_str());
    if at < list.len() {
        list.set(at, entry);
    } else {
        list.push(entry);
    }
    assert(entry_views(list@) =~= spec_upsert(entry_views(old(list)@), entry@));
}

/// The in-memory registry, with the directories it was built for.
pub struct ModelRegistry {
    config_dir: String,
    cache_dir: String,
    models: Vec<ModelEntry>,
}

impl ModelRegistry {
    #[verifier::type_invariant]
    spec fn names_are_keys(&self) -> bool {
        names_distinct(entry_views(self.models@))
    }

    /// The entries, one for each name, in the order in which the names first came.
    pub closed spec fn entries(&self) -> Seq<ModelEntryView> {
        entry_views(self.models@)
    }

    /// The cache directory, as text.
    pub closed spec fn spec_cache_dir(&self) -> Seq<char> {
        self.cache_dir@
    }

    /// The configuration directory, as text.
    pub closed spec fn spec_config_dir(&self) -> Seq<char> {
        self.config_dir@
    }

    /// An empty registry for the given directories.
    pub fn new(config_dir: String, cache_dir: String) -> (registry: Self)
        ensures
            registry.entries() == Seq::<ModelEntryView>::empty(),
            registry.spec_config_dir() == config_dir@,
            registry.spec_cache_dir() == cache_dir@,
    {
        let registry = ModelRegistry { config_dir, cache_dir, models: Vec::new() };
        assert(registry.entries() =~= Seq::<ModelEntryView>::empty());
        registry
    }

    /// Lays one source over the registry: each of its entries overrides what was known
    /// under the same name, and within the source the last entry of a name wins.
    pub fn load(&mut self, source: Vec<ModelEntry>)
        ensures
            final(self).entries() == spec_overlay(old(self).entries(), entry_views(source@)),
            final(self).spec_config_dir() == old(self).spec_config_dir(),
            final(self).spec_cache_dir() == old(self).spec_cache_dir(),
    {
        proof {
            use_type_invariant(&*self);
        }
        let ghost before = self.entries();
        let ghost all = entry_views(source@);
        let mut models: Vec<ModelEntry> = Vec::new();
        std::mem::swap(&mut models, &mut self.models);
        let mut i: usize = 0;
        while i < source.len()
            invariant
                i <= source.len(),
                all == entry_views(source@),
                names_distinct(before),
                entry_views(models@) == spec_overlay(before, all.take(i as int)),
            decreases source.len() - i,
        {
            let entry = source[i].clone();
            upsert(&mut models, entry);
            proof {
                assert(all.take(i as int + 1).drop_last() =~= all.take(i as int));
                assert(all.take(i as int + 1).last() == source[i as int]@);
            }
            i += 1;
        }
        proof {
            assert(all.take(source.len() as int) =~= all);
            lemma_overlay_distinct(before, all);
        }
        self.models = models;
    }

    /// Records one entry in memory, and in the list persisted so far; the returned list is
    /// what is to be persisted in its place.
    pub fn record_model(&mut self, entry: ModelEntry, persisted: Vec<ModelEntry>) -> (updated: Vec<
        ModelEntry,
    >)
        ensures
            final(self).entries() == spec_upsert(old(self).entries(), entry@),
            entry_views(updated@) == spec_upsert(entry_views(persisted@), entry@),
            final(self).spec_config_dir() == old(self).spec_config_dir(),
            final(self).spec_cache_dir() == old(self).spec_cache_dir(),
    {
        proof {
            use_type_invariant(&*self);
            lemma_upsert_distinct(self.entries(), entry@);
        }
        let mut models: Vec<ModelEntry> = Vec::new();
        std::mem::swap(&mut models, &mut self.models);
        upsert(&mut models, entry.clone());
        self.models = models;
        let mut updated = persisted;
        upsert(&mut updated, entry);
        updated
    }

    /// The specification recorded under `name`, if any.
    pub fn resolve(&self, name_or_spec: &str) -> (found: Option<ModelSpec>)
        ensures
            match found {
                Some(spec) => spec_lookup(self.entries(), name_or_spec@) == Some(
                    ModelEntryView {
                        name: name_or_spec@,
                        repo: spec@.repo,
                        filename: spec@.filename,
                        quantization: spec@.quantization,
                    },
                ),
                None => spec_lookup(self.entries(), name_or_spec@) is None,
            },
    {
        let at = position(&self.models, name_or_spec);
        if at < self.models.len() {
            proof {
                lemma_position_found(self.entries(), name_or_spec@);
            }
            let entry = &self.models[at];
            Some(
                ModelSpec {
                    repo: entry.repo.clone(),
                    filename: entry.filename.clone(),
                    quantization: entry.quantization.clone(),
                },
            )
        } else {
            None
        }
    }

    /// The cache directory.
    pub fn get_cache_dir(&self) -> (dir: String)
        ensures
            dir@ == self.spec_cache_dir(),
    {
        self.cache_dir.clone()
    }

    /// The configuration directory.
    pub fn get_config_dir(&self) -> (dir: String)
        ensures
            dir@ == self.spec_config_dir(),
    {
        self.config_dir.clone()
    }

    /// Every entry, one for each name.
    pub fn list_models(&self) -> (list: Vec<ModelEntry>)
        ensures
            entry_views(list@) == self.entries(),
            names_distinct(entry_views(list@)),
    {
        proof {
            use_type_invariant(self);
        }
        let mut list: Vec<ModelEntry> = Vec::new();
        let mut i: usize = 0;
        while i < self.models.len()
            invariant
                i <= self.models.len(),
                list.len() == i,
                forall|j: int| 0 <= j < i ==> list[j]@ == self.models[j]@,
            decreases self.models.len() - i,
        {
            list.push(self.models[i].clone());
            i += 1;
        }
        assert(entry_views(list@) =~= self.entries());
        list
    }

    /// Every entry as the protocol lists it.
    pub fn descriptors(&self) -> (list: Vec<ModelDescriptor>)
        ensures
            crate::protocol::descriptor_views(list@) == spec_descriptors(self.entries()),
    {
        let mut list: Vec<ModelDescriptor> = Vec::new();
        let mut i: usize = 0;
        while i < self.models.len()
            invariant
                i <= self.models.len(),
                list.len() == i,
                forall|j: int| 0 <= j < i ==> list[j]@ == self.models[j]@.descriptor(),
            decreases self.models.len() - i,
        {
            list.push(
                ModelDescriptor {
                    id: self.models[i].name.clone(),
                    purpose: String::from_str("Inference"),
                },
            );
            i += 1;
        }
        assert(crate::protocol::descriptor_views(list@) =~= spec_descriptors(self.entries()));
        list
    }
}

/// The entries as the protocol lists them, in order.
pub open spec fn spec_descriptors(entries: Seq<ModelEntryView>) -> Seq<ModelDescriptorView> {
    Seq::new(entries.len(), |i: int| entries[i].descriptor())
}

/// What is found under a name once three sources are laid over each other is what the
/// last source that knows the name says of it.
pub proof fn law_later_source_wins(
    defaults: Seq<ModelEntryView>,
    manifest: Seq<ModelEntryView>,
    dynamic: Seq<ModelEntryView>,
    name: Seq<char>,
)
    ensures
        spec_lookup(
            spec_overlay(spec_overlay(spec_overlay(Seq::empty(), defaults), manifest), dynamic),
            name,
        ) == spec_last_named(
            dynamic,
            name,
            spec_last_named(manifest, name, spec_last_named(defaults, name, None)),
        ),
{
    let empty = Seq::<ModelEntryView>::empty();
    lemma_overlay_lookup(empty, defaults, name);
    lemma_overlay_lookup(spec_overlay(empty, defaults), manifest, name);
    lemma_overlay_lookup(spec_overlay(spec_overlay(empty, defaults), manifest), dynamic, name);
}

/// The last entry of `source` called `name`, or `otherwise` if there is none.
pub open spec fn spec_last_named(
    source: Seq<ModelEntryView>,
    name: Seq<char>,
    otherwise: Option<ModelEntryView>,
) -> Option<ModelEntryView>
    decreases source.len(),
{
    if source.len() == 0 {
        otherwise
    } else if source.last().name == name {
        Some(source.last())
    } else {
        spec_last_named(source.drop_last(), name, otherwise)
    }
}

/// Looking a name up in an overlay finds the source's last entry of that name, and
/// otherwise what the list below held.
pub proof fn lemma_overlay_lookup(
    list: Seq<ModelEntryView>,
    source: Seq<ModelEntryView>,
    name: Seq<char>,
)
    ensures
        spec_lookup(spec_overlay(list, source), name) == spec_last_named(
            source,
            name,
            spec_lookup(list, name),
        ),
    decreases source.len(),
{
    if source.len() != 0 {
        lemma_overlay_lookup(list, source.drop_last(), name);
        lemma_upsert_lookup(spec_overlay(list, source.drop_last()), source.last(), name);
    }
}

/// The directories a registry lives in.
#[derive(Debug, PartialEq, Eq)]
pub struct DirectoryLayout {
    /// Where the user's manifest is looked for.
    pub config_dir: String,
    /// Where models and the dynamic registry are kept.
    pub cache_dir: String,
}

/// The path of `child` below `base`, the two joined by one `/`.
pub open spec fn spec_below(base: Seq<char>, child: Seq<char>) -> Seq<char> {
    crate::text::spec_join_path(base, child)
}

/// The configuration directory: `home` if it is set, else `config` if it is set, else
/// the directory `rusty-genius` below the platform's; none if none of them is known.
pub open spec fn spec_config_dir(
    home: Option<Seq<char>>,
    config: Option<Seq<char>>,
    platform: Option<Seq<char>>,
) -> Option<Seq<char>> {
    match home {
        Some(dir) => Some(dir),
        None => match config {
            Some(dir) => Some(dir),
            None => match platform {
                Some(dir) => Some(spec_below(dir, "rusty-genius"@)),
                None => None,
            },
        },
    }
}

/// The directories a registry lives in: the configuration directory as
/// [`spec_config_dir`] gives it, and the cache directory `cache` if it is set, else the
/// directory `cache` below the configuration directory.
pub open spec fn spec_layout(
    home: Option<Seq<char>>,
    config: Option<Seq<char>>,
    platform: Option<Seq<char>>,
    cache: Option<Seq<char>>,
) -> Option<(Seq<char>, Seq<char>)> {
    match spec_config_dir(home, config, platform) {
        Some(config_dir) => Some(
            (
                config_dir,
                match cache {
                    Some(dir) => dir,
                    None => spec_below(config_dir, "cache"@),
                },
            ),
        ),
        None => None,
    }
}

/// The directories a registry lives in, given the three overrides of the environment
/// (`GENIUS_HOME`, `RUSTY_GENIUS_CONFIG_DIR` and `GENIUS_CACHE`, as far as they are set)
/// and the platform's configuration directory; see [`spec_layout`]. Fails if no
/// configuration directory is known.
pub fn layout_from(
    home: Option<String>,
    config: Option<String>,
    platform: Option<String>,
    cache: Option<String>,
) -> (layout: Result<DirectoryLayout, String>)
    ensures
        match layout {
            Ok(dirs) => spec_layout(
                home.deep_view(),
                config.deep_view(),
                platform.deep_view(),
                cache.deep_view(),
            ) == Some((dirs.config_dir@, dirs.cache_dir@)),
            Err(message) => {
                &&& spec_layout(
                    home.deep_view(),
                    config.deep_view(),
                    platform.deep_view(),
                    cache.deep_view(),
                ) is None
                &&& message@ == "Could not find config directory"@
            },
        },
{
    let config_dir = match home {
        Some(dir) => dir,
        None => match config {
            Some(dir) => dir,
            None => match platform {
                Some(dir) => crate::text::join_path(dir.as_str(), "rusty-genius"),
                None => {
                    return Err(String::from_str("Could not find config directory"));
                },
            },
        },
    };
    let cache_dir = match cache {
        Some(dir) => dir,
        None => crate::text::join_path(config_dir.as_str(), "cache"),
    };
    Ok(DirectoryLayout { config_dir, cache_dir })
}

/// The platform's directory for the configuration of the user's programs.
///
/// Trusted: calls `dirs::config_dir`. What it returns depends on the environment of the
/// process, so nothing is claimed of it.
#[verifier::external_body]
fn platform_config_dir() -> (dir: Option<String>) {
    match dirs::config_dir() {
        Some(path) => Some(path.to_string_lossy().into_owned()),
        None => None,
    }
}

/// The directories a registry lives in, given the three overrides of the environment
/// (`GENIUS_HOME`, `RUSTY_GENIUS_CONFIG_DIR` and `GENIUS_CACHE`, as far as they are set).
/// The platform is asked for its configuration directory only if neither `home` nor
/// `config` is set; whatever it answers, the result is what [`layout_from`] makes of it.
pub fn resolve_layout(home: Option<String>, config: Option<String>, cache: Option<String>) -> (layout:
    Result<DirectoryLayout, String>)
    ensures
        home is Some || config is Some ==> ({
            &&& layout matches Ok(dirs)
            &&& spec_layout(home.deep_view(), config.deep_view(), None, cache.deep_view())
                == Some((dirs.config_dir@, dirs.cache_dir@))
        }),
        match layout {
            Ok(dirs) => exists|platform: Option<Seq<char>>| #[trigger]
                spec_layout(home.deep_view(), config.deep_view(), platform, cache.deep_view())
                    == Some((dirs.config_dir@, dirs.cache_dir@)),
            Err(message) => {
                &&& home is None
                &&& config is None
                &&& message@ == "Could not find config directory"@
            },
        },
{
    let platform = if home.is_some() || config.is_some() {
        None
    } else {
        platform_config_dir()
    };
    let ghost seen = platform.deep_view();
    let layout = layout_from(home, config, platform, cache);
    proof {
        if layout is Ok {
            assert(spec_layout(home.deep_view(), config.deep_view(), seen, cache.deep_view())
                == Some((layout->Ok_0.config_dir@, layout->Ok_0.cache_dir@)));
        }
    }
    layout
}

} // verus!
