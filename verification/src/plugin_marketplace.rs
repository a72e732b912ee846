//! The plugin marketplace: the repositories it asks, how it ranks, merges and
//! pages what they offer, and the plugins installed from it, with the choice
//! of version, the check of dependencies and updates.
use vstd::prelude::*;
use crate::listing::{first_at, first_index, lemma_first_index, lemma_no_first_index, lemma_first_index_none};
use crate::text::{join2, same_text};

verus! {

/// Where the marketplace keeps its files and how it behaves.
#[derive(Debug, Clone)]
pub struct MarketplaceConfig {
    /// Directory of the local cache.
    pub cache_dir: String,
    /// Directory that plugins are installed into.
    pub install_dir: String,
    /// The official repository.
    pub default_repository: String,
    /// Hours a cached entry stays valid.
    pub cache_expiry_hours: u64,
    /// Whether plugins are updated on their own.
    pub auto_update: bool,
    /// Whether plugin signatures are checked.
    pub verify_signatures: bool,
    /// Most downloads at a time.
    pub max_concurrent_downloads: usize,
}

impl Default for MarketplaceConfig {
    fn default() -> (r: Self)
        ensures
            r.cache_dir@ == "~/.agentx/cache"@,
            r.install_dir@ == "~/.agentx/plugins"@,
            r.default_repository@ == "https://plugins.agentx.dev"@,
            r.cache_expiry_hours == 24,
            !r.auto_update,
            r.verify_signatures,
            r.max_concurrent_downloads == 3,
    {
        MarketplaceConfig {
            cache_dir: String::from_str("~/.agentx/cache"),
            install_dir: String::from_str("~/.agentx/plugins"),
            default_repository: String::from_str("https://plugins.agentx.dev"),
            cache_expiry_hours: 24,
            auto_update: false,
            verify_signatures: true,
            max_concurrent_downloads: 3,
        }
    }
}

/// Category of a plugin on the marketplace.
#[derive(Debug, Clone, Copy, PartialEq, Eq, Structural)]
pub enum PluginCategory {
    FrameworkAdapter,
    ProtocolConverter,
    DataProcessor,
    Monitoring,
    Security,
    Development,
    Integration,
    Other,
}

/// What describes a plugin.
#[derive(Debug, Clone)]
pub struct PluginMetadata {
    /// Name, which identifies the plugin.
    pub name: String,
    /// Name to show.
    pub display_name: String,
    /// What it does.
    pub description: String,
    /// Author.
    pub author: String,
    /// The author's e-mail, if given.
    pub author_email: Option<String>,
    /// Home page, if any.
    pub homepage: Option<String>,
    /// Keywords.
    pub keywords: Vec<String>,
    /// Category.
    pub category: PluginCategory,
    /// When it was created, in milliseconds since the Unix epoch.
    pub created_at: i64,
    /// When it was last updated, in milliseconds since the Unix epoch.
    pub updated_at: i64,
}

/// One released version of a plugin.
#[derive(Debug, Clone)]
pub struct PluginVersion {
    /// Version number.
    pub version: String,
    /// When it was released, in milliseconds since the Unix epoch.
    pub released_at: i64,
    /// What changed.
    pub changelog: String,
    /// Where to download it.
    pub download_url: String,
    /// Size of the file, in bytes.
    pub file_size: u64,
    /// Hash of the file.
    pub file_hash: String,
    /// Signature, if signed.
    pub signature: Option<String>,
    /// Oldest platform version it runs on.
    pub min_agentx_version: String,
    /// Whether it is a pre-release.
    pub is_prerelease: bool,
}

/// How often a plugin was downloaded.
#[derive(Debug, Clone, Default)]
pub struct DownloadStats {
    /// In all.
    pub total_downloads: u64,
    /// This week.
    pub weekly_downloads: u64,
    /// This month.
    pub monthly_downloads: u64,
    /// When last, in milliseconds since the Unix epoch.
    pub last_download: Option<i64>,
}

/// A review on the marketplace.
#[derive(Debug, Clone)]
pub struct PluginReview {
    /// Identifier.
    pub id: String,
    /// Who wrote it.
    pub username: String,
    /// Stars, from 1 to 5.
    pub rating: u8,
    /// What they wrote.
    pub comment: String,
    /// When, in milliseconds since the Unix epoch.
    pub created_at: i64,
    /// The version reviewed.
    pub plugin_version: String,
}

/// How a plugin is rated.
#[derive(Debug, Clone)]
pub struct PluginRatings {
    /// Average rating, in thousandths of a star.
    pub average_rating_milli: u64,
    /// Number of ratings.
    pub total_ratings: u32,
    /// Number of ratings per number of stars.
    pub rating_distribution: Vec<(u8, u32)>,
    /// Reviews.
    pub reviews: Vec<PluginReview>,
}

impl Default for PluginRatings {
    fn default() -> (r: Self)
        ensures
            r.average_rating_milli == 0,
            r.total_ratings == 0,
            r.rating_distribution@.len() == 0,
            r.reviews@.len() == 0,
    {
        PluginRatings { average_rating_milli: 0, total_ratings: 0, rating_distribution: Vec::new(), reviews: Vec::new() }
    }
}

/// A plugin that a plugin needs.
#[derive(Debug, Clone)]
pub struct PluginDependency {
    /// Name of the plugin needed.
    pub name: String,
    /// Versions accepted.
    pub version_requirement: String,
    /// Whether it may be missing.
    pub optional: bool,
}

/// A plugin as a repository offers it.
#[derive(Debug, Clone)]
pub struct PluginPackage {
    /// Description.
    pub metadata: PluginMetadata,
    /// Released versions.
    pub versions: Vec<PluginVersion>,
    /// Downloads.
    pub download_stats: DownloadStats,
    /// Ratings.
    pub ratings: PluginRatings,
    /// Plugins it needs.
    pub dependencies: Vec<PluginDependency>,
    /// Tags.
    pub tags: Vec<String>,
    /// Licence.
    pub license: String,
    /// Its source repository, if any.
    pub repository_url: Option<String>,
    /// Its documentation, if any.
    pub documentation_url: Option<String>,
}

/// How a repository is accessed.
#[derive(Debug, Clone, Copy, PartialEq, Eq, Structural)]
pub enum AuthType {
    /// Without credentials.
    NoAuth,
    /// User name and password.
    Basic,
    /// A bearer token.
    Bearer,
    /// An API key.
    ApiKey,
}

/// The credentials for a repository.
#[derive(Debug, Clone)]
pub struct RepositoryAuth {
    /// Kind of credentials.
    pub auth_type: AuthType,
    /// User name, if any.
    pub username: Option<String>,
    /// Password or token, if any.
    pub token: Option<String>,
}

/// A repository of plugins.
#[derive(Debug, Clone)]
pub struct PluginRepository {
    /// Name.
    pub name: String,
    /// Address.
    pub url: String,
    /// Whether it is asked.
    pub enabled: bool,
    /// Higher is asked first.
    pub priority: u32,
    /// Credentials, if needed.
    pub auth: Option<RepositoryAuth>,
}

/// A plugin installed locally.
#[derive(Debug, Clone)]
pub struct InstalledPlugin {
    /// The plugin as it was installed.
    pub package: PluginPackage,
    /// The version installed.
    pub installed_version: String,
    /// When, in milliseconds since the Unix epoch.
    pub installed_at: i64,
    /// Where.
    pub install_path: String,
    /// Whether it is enabled.
    pub enabled: bool,
    /// Its configuration file, if any.
    pub config_path: Option<String>,
}

/// How search results are ordered.
#[derive(Debug, Clone, Copy, PartialEq, Eq, Structural)]
pub enum SortBy {
    /// By name.
    Relevance,
    /// Most downloaded first.
    Downloads,
    /// Best rated first.
    Rating,
    /// Most recently updated first.
    Updated,
    /// Most recently created first.
    Created,
    /// By name.
    Name,
}

impl Default for SortBy {
    fn default() -> (r: Self)
        ensures
            r == SortBy::Relevance,
    {
        SortBy::Relevance
    }
}

/// A search of the marketplace.
#[derive(Debug, Clone)]
pub struct SearchQuery {
    /// Words to look for, if any.
    pub keywords: Option<String>,
    /// Category, if restricted.
    pub category: Option<PluginCategory>,
    /// Author, if restricted.
    pub author: Option<String>,
    /// Tags required.
    pub tags: Vec<String>,
    /// Order of the results.
    pub sort_by: SortBy,
    /// Page wanted, from 0.
    pub page: usize,
    /// Results per page.
    pub page_size: usize,
}

impl Default for SearchQuery {
    fn default() -> (r: Self)
        ensures
            r.keywords is None,
            r.category is None,
            r.author is None,
            r.tags@.len() == 0,
            r.sort_by == SortBy::Relevance,
            r.page == 0,
            r.page_size == 0,
    {
        SearchQuery {
            keywords: None,
            category: None,
            author: None,
            tags: Vec::new(),
            sort_by: SortBy::Relevance,
            page: 0,
            page_size: 0,
        }
    }
}

/// One page of search results.
#[derive(Debug, Clone)]
pub struct SearchResult {
    /// The plugins on the page.
    pub plugins: Vec<PluginPackage>,
    /// How many plugins were found in all.
    pub total_count: usize,
    /// The page.
    pub page: usize,
    /// Results per page.
    pub page_size: usize,
}

/// An update available for an installed plugin.
#[derive(Debug, Clone)]
pub struct PluginUpdate {
    /// The plugin.
    pub plugin_name: String,
    /// The version installed.
    pub current_version: String,
    /// The newest stable version.
    pub latest_version: String,
    /// What changed in it.
    pub changelog: String,
}

/// How the update of one plugin went.
#[derive(Debug, Clone)]
pub struct PluginUpdateResult {
    /// The plugin.
    pub plugin_name: String,
    /// Whether it was updated.
    pub success: bool,
    /// Why not, if it was not.
    pub error: Option<String>,
}

/// Why the marketplace refused a request.
#[derive(Debug, Clone, PartialEq, Eq)]
pub enum MarketplaceError {
    /// The request names something that does not exist or cannot be used.
    Validation(String),
}

/// The message of an error.
pub open spec fn error_text(e: MarketplaceError) -> Seq<char> {
    match e {
        MarketplaceError::Validation(m) => m@,
    }
}

impl MarketplaceError {
    /// The message of the error.
    pub fn message(&self) -> (r: String)
        ensures
            r@ == error_text(*self),
    {
        match self {
            MarketplaceError::Validation(m) => m.clone(),
        }
    }
}

/// Whether `a` comes before `b` in the order of `String`: character by
/// character, a proper prefix first.
pub open spec fn text_lt(a: Seq<char>, b: Seq<char>) -> bool
    decreases a.len(),
{
    if b.len() == 0 {
        false
    } else if a.len() == 0 {
        true
    } else if a[0] != b[0] {
        (a[0] as u32) < (b[0] as u32)
    } else {
        text_lt(a.drop_first(), b.drop_first())
    }
}

/// Whether `a` comes before `b` in the order of `String`.
pub fn text_less(a: &str, b: &str) -> (r: bool)
    ensures
        r == text_lt(a@, b@),
{
    let n = a.unicode_len();
    let m = b.unicode_len();
    let mut i: usize = 0;
    assert(a@.skip(0) =~= a@);
    assert(b@.skip(0) =~= b@);
    while i < n && i < m
        invariant
            n == a@.len(),
            m == b@.len(),
            i <= n,
            i <= m,
            text_lt(a@, b@) == text_lt(a@.skip(i as int), b@.skip(i as int)),
        decreases n - i,
    {
        let x = a.get_char(i);
        let y = b.get_char(i);
        assert(a@.skip(i as int)[0] == x);
        assert(b@.skip(i as int)[0] == y);
        if x != y {
            return (x as u32) < (y as u32);
        }
        assert(a@.skip(i as int).drop_first() =~= a@.skip(i + 1));
        assert(b@.skip(i as int).drop_first() =~= b@.skip(i + 1));
        i = i + 1;
    }
    i < m
}

/// The path of `name` inside directory `dir`, as `Path::join` forms it: an
/// absolute `name` stands alone, an empty directory adds nothing, and a
/// separator is put between the two when `dir` does not end with one.
pub open spec fn path_join(dir: Seq<char>, name: Seq<char>) -> Seq<char> {
    if name.len() > 0 && name[0] == '/' {
        name
    } else if dir.len() == 0 {
        name
    } else if dir.last() == '/' {
        dir + name
    } else {
        dir + "/"@ + name
    }
}

/// Forms the path of `name` inside directory `dir` (see `path_join`).
pub fn join_path(dir: &str, name: &str) -> (r: String)
    ensures
        r@ == path_join(dir@, name@),
{
    let n = name.unicode_len();
    if n > 0 && name.get_char(0) == '/' {
        return String::from_str(name);
    }
    let d = dir.unicode_len();
    if d == 0 {
        return String::from_str(name);
    }
    if dir.get_char(d - 1) == '/' {
        return join2(dir, name);
    }
    let with_separator = join2(dir, "/");
    proof {
        reveal_strlit("/");
    }
    join2(with_separator.as_str(), name)
}

/// `r` put among repositories ordered by priority, after every repository of
/// a priority at least its own: what ordering by priority, highest first,
/// keeping the order of equal priorities, gives with `r` added last.
pub open spec fn insert_repository(s: Seq<PluginRepository>, r: PluginRepository) -> Seq<PluginRepository>
    decreases s.len(),
{
    if s.len() == 0 {
        seq![r]
    } else if s[0].priority < r.priority {
        seq![r] + s
    } else {
        seq![s[0]] + insert_repository(s.drop_first(), r)
    }
}

/// Whether the priorities never rise along `s`.
pub open spec fn by_priority(s: Seq<PluginRepository>) -> bool {
    forall|i: int, j: int| 0 <= i < j < s.len() ==> s[i].priority >= s[j].priority
}

proof fn lemma_insert_repository_at(s: Seq<PluginRepository>, r: PluginRepository, j: int)
    requires
        0 <= j <= s.len(),
        forall|k: int| 0 <= k < j ==> s[k].priority >= r.priority,
        j < s.len() ==> s[j].priority < r.priority,
    ensures
        insert_repository(s, r) == s.insert(j, r),
    decreases s.len(),
{
    if s.len() == 0 {
        assert(s.insert(j, r) =~= seq![r]);
    } else if s[0].priority < r.priority {
        assert(j == 0);
        assert(s.insert(0, r) =~= seq![r] + s);
    } else {
        let rest = s.drop_first();
        assert forall|k: int| 0 <= k < j - 1 implies rest[k].priority >= r.priority by {
            assert(rest[k] == s[k + 1]);
        }
        if j - 1 < rest.len() {
            assert(rest[j - 1] == s[j]);
        }
        lemma_insert_repository_at(rest, r, j - 1);
        assert(seq![s[0]] + rest.insert(j - 1, r) =~= s.insert(j, r));
    }
}

/// Adding a repository keeps the repositories ordered by priority, highest
/// first, and adds exactly it.
pub proof fn lemma_repositories_stay_ordered(s: Seq<PluginRepository>, r: PluginRepository)
    requires
        by_priority(s),
    ensures
        by_priority(insert_repository(s, r)),
        insert_repository(s, r).len() == s.len() + 1,
        insert_repository(s, r).contains(r),
    decreases s.len(),
{
    let t = insert_repository(s, r);
    if s.len() == 0 {
        assert(t[0] == r);
    } else if s[0].priority < r.priority {
        assert(t[0] == r);
        assert forall|i: int, j: int| 0 <= i < j < t.len() implies t[i].priority >= t[j].priority by {
            if i > 0 {
                assert(t[i] == s[i - 1]);
            }
            assert(t[j] == s[j - 1]);
        }
    } else {
        let rest = s.drop_first();
        assert(by_priority(rest)) by {
            assert forall|a: int, b: int| 0 <= a < b < rest.len() implies rest[a].priority >= rest[b].priority by {
                assert(rest[a] == s[a + 1]);
                assert(rest[b] == s[b + 1]);
            }
        }
        lemma_repositories_stay_ordered(rest, r);
        let ri = insert_repository(rest, r);
        assert(t == seq![s[0]] + ri);
        let w = choose|w: int| 0 <= w < ri.len() && ri[w] == r;
        assert(t[w + 1] == r);
        assert forall|i: int, j: int| 0 <= i < j < t.len() implies t[i].priority >= t[j].priority by {
            if i == 0 {
                assert(t[j] == ri[j - 1]);
                lemma_insert_repository_from(rest, r, j - 1);
            } else {
                assert(t[i] == ri[i - 1]);
                assert(t[j] == ri[j - 1]);
            }
        }
    }
}

proof fn lemma_insert_repository_from(s: Seq<PluginRepository>, r: PluginRepository, k: int)
    requires
        0 <= k < insert_repository(s, r).len(),
    ensures
        insert_repository(s, r)[k] == r || s.contains(insert_repository(s, r)[k]),
    decreases s.len(),
{
    let t = insert_repository(s, r);
    if s.len() == 0 {
    } else if s[0].priority < r.priority {
        if k > 0 {
            assert(t[k] == s[k - 1]);
        }
    } else {
        if k == 0 {
            assert(t[0] == s[0]);
        } else {
            let rest = s.drop_first();
            assert(t[k] == insert_repository(rest, r)[k - 1]);
            lemma_insert_repository_from(rest, r, k - 1);
            if insert_repository(rest, r)[k - 1] != r {
                let m = choose|m: int| 0 <= m < rest.len() && rest[m] == insert_repository(rest, r)[k - 1];
                assert(s[m + 1] == rest[m]);
            }
        }
    }
}

/// The version numbers of some versions.
pub open spec fn version_names(v: Seq<PluginVersion>) -> Seq<Seq<char>> {
    v.map_values(|x: PluginVersion| x.version@)
}

/// The position of the newest stable version: the greatest version number
/// among the versions that are not pre-releases, the last of equal ones.
pub open spec fn latest_stable(v: Seq<PluginVersion>) -> Option<int>
    decreases v.len(),
{
    if v.len() == 0 {
        None
    } else {
        let rest = latest_stable(v.drop_last());
        if v.last().is_prerelease {
            rest
        } else {
            match rest {
                Some(i) => if text_lt(v.last().version@, v[i].version@) {
                    Some(i)
                } else {
                    Some(v.len() - 1)
                },
                None => Some(v.len() - 1),
            }
        }
    }
}

/// The position of the newest stable version, if there is one.
pub fn find_latest_stable(v: &Vec<PluginVersion>) -> (r: Option<usize>)
    ensures
        match r {
            Some(i) => latest_stable(v@) == Some(i as int) && i < v@.len() && !v@[i as int].is_prerelease,
            None => latest_stable(v@) is None,
        },
{
    let ghost all = v@;
    let n = v.len();
    let mut best: Option<usize> = None;
    let mut k: usize = 0;
    while k < n
        invariant
            n == all.len(),
            all == v@,
            k <= n,
            match latest_stable(all.take(k as int)) {
                Some(i) => best == Some(i as usize) && 0 <= i < k && !all[i].is_prerelease,
                None => best is None,
            },
        decreases n - k,
    {
        let ghost pre = all.take(k as int);
        let ghost next = all.take(k + 1);
        assert(next.drop_last() =~= pre);
        assert(next.last() == all[k as int]);
        if !v[k].is_prerelease {
            match best {
                Some(b) => {
                    assert(next[b as int] == all[b as int]);
                    if !text_less(v[k].version.as_str(), v[b].version.as_str()) {
                        best = Some(k);
                    }
                },
                None => {
                    best = Some(k);
                },
            }
        }
        k = k + 1;
    }
    assert(all.take(n as int) =~= all);
    best
}

/// The version that an installation takes: the one numbered `wanted`, the
/// first of that number, if a number is asked for, else the newest stable one.
pub open spec fn chosen_version(v: Seq<PluginVersion>, wanted: Option<Seq<char>>) -> Option<int> {
    match wanted {
        Some(w) => first_index(version_names(v), w),
        None => latest_stable(v),
    }
}

/// Why no version could be chosen.
pub open spec fn version_error_text(wanted: Option<Seq<char>>) -> Seq<char> {
    match wanted {
        Some(w) => "版本未找到: "@ + w,
        None => "没有稳定版本"@,
    }
}

/// The view of an optional text.
pub open spec fn opt_text(t: Option<&str>) -> Option<Seq<char>> {
    match t {
        Some(s) => Some(s@),
        None => None,
    }
}

/// Chooses the version to install (see `chosen_version`).
pub fn select_version(versions: &Vec<PluginVersion>, version: Option<&str>) -> (r: Result<usize, MarketplaceError>)
    ensures
        r matches Ok(k) ==> k < versions@.len(),
        match version {
            Some(v) => match r {
                Ok(k) => chosen_version(versions@, Some(v@)) == Some(k as int),
                Err(e) => chosen_version(versions@, Some(v@)) is None && error_text(e) == version_error_text(Some(v@)),
            },
            None => match r {
                Ok(k) => chosen_version(versions@, None) == Some(k as int),
                Err(e) => chosen_version(versions@, None) is None && error_text(e) == version_error_text(None),
            },
        },
{
    match version {
        Some(v) => {
            match find_version(versions, v) {
                Some(i) => Ok(i),
                None => Err(MarketplaceError::Validation(join2("版本未找到: ", v))),
            }
        },
        None => {
            match find_latest_stable(versions) {
                Some(i) => Ok(i),
                None => Err(MarketplaceError::Validation(String::from_str("没有稳定版本"))),
            }
        },
    }
}

/// The position of the first version numbered `v`, if any.
fn find_version(versions: &Vec<PluginVersion>, v: &str) -> (r: Option<usize>)
    ensures
        match r {
            Some(i) => first_index(version_names(versions@), v@) == Some(i as int) && i < versions@.len(),
            None => first_index(version_names(versions@), v@) is None,
        },
{
    let ghost names = version_names(versions@);
    let mut i: usize = 0;
    while i < versions.len()
        invariant
            names == version_names(versions@),
            i <= versions@.len(),
            forall|j: int| 0 <= j < i ==> names[j] != v@,
        decreases versions@.len() - i,
    {
        if same_text(versions[i].version.as_str(), v) {
            proof {
                assert(first_at(names, v@, i as int));
                lemma_first_index(names, v@, i as int);
            }
            return Some(i);
        }
        i = i + 1;
    }
    proof {
        lemma_no_first_index(names, v@);
    }
    None
}

/// Whether a dependency is required and not installed.
pub open spec fn dependency_missing(d: PluginDependency, installed: Seq<Seq<char>>) -> bool {
    !d.optional && !installed.contains(d.name@)
}

/// Whether `i` is the first missing dependency.
pub open spec fn first_missing_at(deps: Seq<PluginDependency>, installed: Seq<Seq<char>>, i: int) -> bool {
    &&& 0 <= i < deps.len()
    &&& dependency_missing(deps[i], installed)
    &&& forall|j: int| 0 <= j < i ==> !dependency_missing(#[trigger] deps[j], installed)
}

/// The first missing dependency, if any.
pub open spec fn first_missing(deps: Seq<PluginDependency>, installed: Seq<Seq<char>>) -> Option<int> {
    if exists|i: int| first_missing_at(deps, installed, i) {
        Some(choose|i: int| first_missing_at(deps, installed, i))
    } else {
        None
    }
}

proof fn lemma_first_missing(deps: Seq<PluginDependency>, installed: Seq<Seq<char>>, i: int)
    requires
        first_missing_at(deps, installed, i),
    ensures
        first_missing(deps, installed) == Some(i),
{
    let j = choose|j: int| first_missing_at(deps, installed, j);
    if j < i {
        assert(!dependency_missing(deps[j], installed));
    } else if i < j {
        assert(!dependency_missing(deps[i], installed));
    }
}

/// The names under which some plugins are installed.
pub open spec fn installed_names(s: Seq<InstalledPlugin>) -> Seq<Seq<char>> {
    s.map_values(|p: InstalledPlugin| p.package.metadata.name@)
}

/// `p` recorded among the installed plugins: in place of the plugin
/// installed under its name, or at the end.
pub open spec fn put_installed(s: Seq<InstalledPlugin>, p: InstalledPlugin) -> Seq<InstalledPlugin> {
    match first_index(installed_names(s), p.package.metadata.name@) {
        Some(i) => s.update(i, p),
        None => s.push(p),
    }
}

/// Whether `inst` records version `vi` of `p` installed at `now` under `dir`.
pub open spec fn installed_as(inst: InstalledPlugin, p: PluginPackage, vi: int, now: i64, dir: Seq<char>) -> bool {
    &&& inst.package == p
    &&& inst.installed_version@ == p.versions@[vi].version@
    &&& inst.installed_at == now
    &&& inst.install_path@ == path_join(dir, p.metadata.name@)
    &&& inst.enabled
    &&& inst.config_path is None
}

/// Whether `after` is `before` with version `vi` of `p` recorded as
/// installed at `now` under `dir`.
pub open spec fn installed_after(before: Seq<InstalledPlugin>, after: Seq<InstalledPlugin>, p: PluginPackage, vi: int, now: i64, dir: Seq<char>) -> bool {
    match first_index(installed_names(after), p.metadata.name@) {
        Some(k) => installed_as(after[k], p, vi, now, dir) && after == put_installed(before, after[k]),
        None => false,
    }
}

/// The text of the refusal of a plugin that no repository offers.
pub open spec fn not_found_text(name: Seq<char>) -> Seq<char> {
    "插件未找到: "@ + name
}

/// The text of the refusal of a plugin that is not installed.
pub open spec fn not_installed_text(name: Seq<char>) -> Seq<char> {
    "插件未安装: "@ + name
}

/// The text of the refusal of a plugin whose dependency is missing.
pub open spec fn missing_dependency_text(name: Seq<char>) -> Seq<char> {
    "依赖未找到: "@ + name
}

/// Whether `a` goes before `b` in results ordered by `by`: by name for
/// relevance and name, else the higher downloads, rating, update time or
/// creation time first.
pub open spec fn ranks_before(a: PluginPackage, b: PluginPackage, by: SortBy) -> bool {
    match by {
        SortBy::Relevance => text_lt(a.metadata.name@, b.metadata.name@),
        SortBy::Name => text_lt(a.metadata.name@, b.metadata.name@),
        SortBy::Downloads => a.download_stats.total_downloads > b.download_stats.total_downloads,
        SortBy::Rating => a.ratings.average_rating_milli > b.ratings.average_rating_milli,
        SortBy::Updated => a.metadata.updated_at > b.metadata.updated_at,
        SortBy::Created => a.metadata.created_at > b.metadata.created_at,
    }
}

/// `x` put into `s` before the first entry that it goes before.
pub open spec fn insert_ranked(s: Seq<PluginPackage>, x: PluginPackage, by: SortBy) -> Seq<PluginPackage>
    decreases s.len(),
{
    if s.len() == 0 {
        seq![x]
    } else if ranks_before(x, s[0], by) {
        seq![x] + s
    } else {
        seq![s[0]] + insert_ranked(s.drop_first(), x, by)
    }
}

/// `s` ordered by `by`, keeping the order of entries that neither goes
/// before the other: a stable sort.
pub open spec fn sort_ranked(s: Seq<PluginPackage>, by: SortBy) -> Seq<PluginPackage>
    decreases s.len(),
{
    if s.len() == 0 {
        s
    } else {
        insert_ranked(sort_ranked(s.drop_last(), by), s.last(), by)
    }
}

/// `s` without the entries that have the name of the entry kept just before
/// them: of each run of one name, the first.
pub open spec fn dedup_names(s: Seq<PluginPackage>) -> Seq<PluginPackage>
    decreases s.len(),
{
    if s.len() == 0 {
        s
    } else {
        let d = dedup_names(s.drop_last());
        if d.len() > 0 && d.last().metadata.name@ == s.last().metadata.name@ {
            d
        } else {
            d.push(s.last())
        }
    }
}

/// The plugins a search finds among those the repositories offered: ordered,
/// with runs of one name merged.
pub open spec fn search_found(found: Seq<PluginPackage>, by: SortBy) -> Seq<PluginPackage> {
    dedup_names(sort_ranked(found, by))
}

/// Whether `a` goes before `b` in results ordered by `by`.
pub fn package_ranks_before(a: &PluginPackage, b: &PluginPackage, by: SortBy) -> (r: bool)
    ensures
        r == ranks_before(*a, *b, by),
{
    match by {
        SortBy::Relevance => text_less(a.metadata.name.as_str(), b.metadata.name.as_str()),
        SortBy::Name => text_less(a.metadata.name.as_str(), b.metadata.name.as_str()),
        SortBy::Downloads => a.download_stats.total_downloads > b.download_stats.total_downloads,
        SortBy::Rating => a.ratings.average_rating_milli > b.ratings.average_rating_milli,
        SortBy::Updated => a.metadata.updated_at > b.metadata.updated_at,
        SortBy::Created => a.metadata.created_at > b.metadata.created_at,
    }
}

proof fn lemma_insert_ranked_at(s: Seq<PluginPackage>, x: PluginPackage, by: SortBy, j: int)
    requires
        0 <= j <= s.len(),
        forall|k: int| 0 <= k < j ==> !ranks_before(x, #[trigger] s[k], by),
        j < s.len() ==> ranks_before(x, s[j], by),
    ensures
        insert_ranked(s, x, by) == s.insert(j, x),
    decreases s.len(),
{
    if s.len() == 0 {
        assert(s.insert(j, x) =~= seq![x]);
    } else if ranks_before(x, s[0], by) {
        assert(j == 0);
        assert(s.insert(0, x) =~= seq![x] + s);
    } else {
        let rest = s.drop_first();
        assert forall|k: int| 0 <= k < j - 1 implies !ranks_before(x, #[trigger] rest[k], by) by {
            assert(rest[k] == s[k + 1]);
        }
        if j - 1 < rest.len() {
            assert(rest[j - 1] == s[j]);
        }
        lemma_insert_ranked_at(rest, x, by, j - 1);
        assert(seq![s[0]] + rest.insert(j - 1, x) =~= s.insert(j, x));
    }
}

/// Orders plugins by `by`, stably (see `sort_ranked`).
pub fn sort_packages(v: Vec<PluginPackage>, by: SortBy) -> (r: Vec<PluginPackage>)
    ensures
        r@ == sort_ranked(v@, by),
{
    let ghost all = v@;
    let n = v.len();
    let mut rest = v;
    let mut out: Vec<PluginPackage> = Vec::new();
    let mut i: usize = 0;
    assert(all.take(0) =~= Seq::<PluginPackage>::empty());
    assert(all.skip(0) =~= all);
    while i < n
        invariant
            n == all.len(),
            i <= n,
            rest@ == all.skip(i as int),
            out@ == sort_ranked(all.take(i as int), by),
        decreases n - i,
    {
        assert(all.skip(i as int)[0] == all[i as int]);
        let x = rest.remove(0);
        assert(rest@ =~= all.skip(i + 1));
        let ghost sorted = out@;
        let mut j: usize = 0;
        while j < out.len() && !package_ranks_before(&x, &out[j], by)
            invariant
                j <= out@.len(),
                sorted == out@,
                forall|k: int| 0 <= k < j ==> !ranks_before(x, #[trigger] sorted[k], by),
            decreases out@.len() - j,
        {
            j = j + 1;
        }
        proof {
            lemma_insert_ranked_at(sorted, x, by, j as int);
            assert(all.take(i + 1).drop_last() =~= all.take(i as int));
            assert(all.take(i + 1).last() == all[i as int]);
        }
        out.insert(j, x);
        i = i + 1;
    }
    assert(all.take(n as int) =~= all);
    out
}

/// Merges runs of one name (see `dedup_names`).
pub fn dedup_packages(v: Vec<PluginPackage>) -> (r: Vec<PluginPackage>)
    ensures
        r@ == dedup_names(v@),
{
    let ghost all = v@;
    let n = v.len();
    let mut rest = v;
    let mut out: Vec<PluginPackage> = Vec::new();
    let mut i: usize = 0;
    assert(all.take(0) =~= Seq::<PluginPackage>::empty());
    assert(all.skip(0) =~= all);
    while i < n
        invariant
            n == all.len(),
            i <= n,
            rest@ == all.skip(i as int),
            out@ == dedup_names(all.take(i as int)),
        decreases n - i,
    {
        assert(all.skip(i as int)[0] == all[i as int]);
        let x = rest.remove(0);
        assert(rest@ =~= all.skip(i + 1));
        proof {
            assert(all.take(i + 1).drop_last() =~= all.take(i as int));
            assert(all.take(i + 1).last() == all[i as int]);
        }
        let last = out.len();
        if last > 0 && same_text(out[last - 1].metadata.name.as_str(), x.metadata.name.as_str()) {
        } else {
            out.push(x);
        }
        i = i + 1;
    }
    assert(all.take(n as int) =~= all);
    out
}

/// The plugins a search finds among `found`: ordered as the query says,
/// runs of one name merged (see `search_found`).
pub fn merge_found(found: Vec<PluginPackage>, sort_by: SortBy) -> (r: Vec<PluginPackage>)
    ensures
        r@ == search_found(found@, sort_by),
{
    let sorted = sort_packages(found, sort_by);
    dedup_packages(sorted)
}

/// The marketplace: the repositories it asks, highest priority first, and
/// the plugins installed, one per name.
pub struct PluginMarketplace {
    config: MarketplaceConfig,
    repositories: Vec<PluginRepository>,
    installed: Vec<InstalledPlugin>,
}

/// The page of search results that a query asks for: from position
/// `page * page_size` on, at most `page_size` of them.
pub open spec fn search_page(found: Seq<PluginPackage>, page: usize, page_size: usize) -> Seq<PluginPackage> {
    let start = page * page_size;
    let end = if start + page_size < found.len() { start + page_size } else { found.len() as int };
    found.subrange(start, end)
}

/// The updates that a catalogue shows for the plugins installed: for each
/// installed plugin, in order, whose first entry in the catalogue has a
/// stable version newer than the one installed, its name, the version
/// installed, the newest stable version and what changed in it.
pub open spec fn pending_updates(installed: Seq<InstalledPlugin>, catalog: Seq<PluginPackage>) -> Seq<(Seq<char>, Seq<char>, Seq<char>, Seq<char>)>
    decreases installed.len(),
{
    if installed.len() == 0 {
        Seq::empty()
    } else {
        let rest = pending_updates(installed.drop_last(), catalog);
        let inst = installed.last();
        let name = inst.package.metadata.name@;
        match first_index(package_names(catalog), name) {
            Some(c) => match latest_stable(catalog[c].versions@) {
                Some(j) => {
                    let latest = catalog[c].versions@[j];
                    if text_lt(inst.installed_version@, latest.version@) {
                        rest.push((name, inst.installed_version@, latest.version@, latest.changelog@))
                    } else {
                        rest
                    }
                },
                None => rest,
            },
            None => rest,
        }
    }
}

/// The names of some packages.
pub open spec fn package_names(s: Seq<PluginPackage>) -> Seq<Seq<char>> {
    s.map_values(|p: PluginPackage| p.metadata.name@)
}

/// The plain view of some updates.
pub open spec fn update_views(s: Seq<PluginUpdate>) -> Seq<(Seq<char>, Seq<char>, Seq<char>, Seq<char>)> {
    s.map_values(|u: PluginUpdate| (u.plugin_name@, u.current_version@, u.latest_version@, u.changelog@))
}

/// How an installation of `p`, at the version `wanted` or the newest stable
/// one, ends when the plugins installed are `before`: refused when no
/// version fits or a required dependency is not installed, else recorded.
pub open spec fn install_outcome(
    before: Seq<InstalledPlugin>,
    after: Seq<InstalledPlugin>,
    r: Result<(), MarketplaceError>,
    p: PluginPackage,
    wanted: Option<Seq<char>>,
    now: i64,
    dir: Seq<char>,
) -> bool {
    match chosen_version(p.versions@, wanted) {
        None => (r matches Err(e) && error_text(e) == version_error_text(wanted)) && after == before,
        Some(vi) => match first_missing(p.dependencies@, installed_names(before)) {
            Some(k) => (r matches Err(e) && error_text(e) == missing_dependency_text(p.dependencies@[k].name@))
                && after == before,
            None => r is Ok && installed_after(before, after, p, vi, now, dir),
        },
    }
}

/// Whether `repo` is the official repository at `url`.
pub open spec fn official_repository(repo: PluginRepository, url: Seq<char>) -> bool {
    &&& repo.name@ == "official"@
    &&& repo.url@ == url
    &&& repo.enabled
    &&& repo.priority == 100
    &&& repo.auth is None
}

/// The references of a listing, followed.
pub open spec fn installed_derefs(r: Seq<&InstalledPlugin>) -> Seq<InstalledPlugin> {
    r.map_values(|p: &InstalledPlugin| *p)
}

impl PluginMarketplace {
    /// The settings.
    pub closed spec fn config_spec(&self) -> MarketplaceConfig {
        self.config
    }

    /// The repositories, in the order they are asked.
    pub closed spec fn repositories_spec(&self) -> Seq<PluginRepository> {
        self.repositories@
    }

    /// The plugins installed.
    pub closed spec fn installed_spec(&self) -> Seq<InstalledPlugin> {
        self.installed@
    }

    /// A marketplace that asks the official repository and has nothing installed.
    pub fn new(config: MarketplaceConfig) -> (r: Self)
        ensures
            r.config_spec() == config,
            r.repositories_spec().len() == 1,
            official_repository(r.repositories_spec()[0], config.default_repository@),
            r.installed_spec().len() == 0,
    {
        let url = config.default_repository.clone();
        let official = PluginRepository {
            name: String::from_str("official"),
            url,
            enabled: true,
            priority: 100,
            auth: None,
        };
        let mut repositories: Vec<PluginRepository> = Vec::new();
        repositories.push(official);
        PluginMarketplace { config, repositories, installed: Vec::new() }
    }

    /// The settings.
    pub fn config(&self) -> (r: &MarketplaceConfig)
        ensures
            *r == self.config_spec(),
    {
        &self.config
    }

    /// The repositories, in the order they are asked.
    pub fn repositories(&self) -> (r: &Vec<PluginRepository>)
        ensures
            r@ == self.repositories_spec(),
    {
        &self.repositories
    }

    /// Adds a repository after every repository of a priority at least its own.
    pub fn add_repository(&mut self, repository: PluginRepository)
        ensures
            final(self).repositories_spec() == insert_repository(old(self).repositories_spec(), repository),
            final(self).installed_spec() == old(self).installed_spec(),
            final(self).config_spec() == old(self).config_spec(),
    {
        let ghost before = self.repositories@;
        let mut j: usize = 0;
        while j < self.repositories.len() && self.repositories[j].priority >= repository.priority
            invariant
                before == self.repositories@,
                j <= self.repositories@.len(),
                forall|k: int| 0 <= k < j ==> before[k].priority >= repository.priority,
            decreases self.repositories@.len() - j,
        {
            j = j + 1;
        }
        proof {
            lemma_insert_repository_at(before, repository, j as int);
        }
        self.repositories.insert(j, repository);
    }

    fn find_installed(&self, name: &str) -> (r: Option<usize>)
        ensures
            match r {
                Some(i) => first_at(installed_names(self.installed@), name@, i as int)
                    && first_index(installed_names(self.installed@), name@) == Some(i as int),
                None => first_index(installed_names(self.installed@), name@) is None,
            },
    {
        let ghost names = installed_names(self.installed@);
        let mut i: usize = 0;
        while i < self.installed.len()
            invariant
                names == installed_names(self.installed@),
                i <= self.installed@.len(),
                forall|j: int| 0 <= j < i ==> names[j] != name@,
            decreases self.installed@.len() - i,
        {
            if same_text(self.installed[i].package.metadata.name.as_str(), name) {
                proof {
                    assert(first_at(names, name@, i as int));
                    lemma_first_index(names, name@, i as int);
                }
                return Some(i);
            }
            i = i + 1;
        }
        proof {
            lemma_no_first_index(names, name@);
        }
        None
    }

    fn check_dependencies(&self, dependencies: &Vec<PluginDependency>) -> (r: Result<(), MarketplaceError>)
        ensures
            match first_missing(dependencies@, installed_names(self.installed@)) {
                Some(k) => r matches Err(e) && error_text(e) == missing_dependency_text(dependencies@[k].name@),
                None => r is Ok,
            },
    {
        let ghost names = installed_names(self.installed@);
        let mut i: usize = 0;
        while i < dependencies.len()
            invariant
                names == installed_names(self.installed@),
                i <= dependencies@.len(),
                forall|j: int| 0 <= j < i ==> !dependency_missing(#[trigger] dependencies@[j], names),
            decreases dependencies@.len() - i,
        {
            let d = &dependencies[i];
            if !d.optional {
                match self.find_installed(d.name.as_str()) {
                    Some(k) => {
                        assert(names[k as int] == d.name@);
                    },
                    None => {
                        proof {
                            lemma_first_index_none(names, d.name@);
                            assert(first_missing_at(dependencies@, names, i as int));
                            lemma_first_missing(dependencies@, names, i as int);
                        }
                        return Err(MarketplaceError::Validation(join2("依赖未找到: ", d.name.as_str())));
                    },
                }
            }
            i = i + 1;
        }
        proof {
            if exists|k: int| first_missing_at(dependencies@, names, k) {
                let k = choose|k: int| first_missing_at(dependencies@, names, k);
                assert(!dependency_missing(dependencies@[k], names));
            }
        }
        Ok(())
    }

    /// Records `p` (what a repository gave for it) as installed: `p` at the
    /// version `version`, or its newest stable one, under the installation
    /// directory (see `install_outcome`); refused when no repository gave it.
    fn install_package(&mut self, p: PluginPackage, version: Option<&str>, now: i64) -> (r: Result<(), MarketplaceError>)
        ensures
            install_outcome(old(self).installed_spec(), final(self).installed_spec(), r, p, opt_text(version), now,
                old(self).config_spec().install_dir@),
            final(self).repositories_spec() == old(self).repositories_spec(),
            final(self).config_spec() == old(self).config_spec(),
    {
        let vi = match select_version(&p.versions, version) {
            Ok(i) => i,
            Err(e) => return Err(e),
        };
        assert(chosen_version(p.versions@, opt_text(version)) == Some(vi as int));
        match self.check_dependencies(&p.dependencies) {
            Ok(()) => {},
            Err(e) => return Err(e),
        }
        assert(first_missing(p.dependencies@, installed_names(old(self).installed@)) is None);
        let ghost pkg = p;
        let name = p.metadata.name.clone();
        assert(name@ == pkg.metadata.name@);
        let path = join_path(self.config.install_dir.as_str(), name.as_str());
        let ver = p.versions[vi].version.clone();
        let inst = InstalledPlugin { package: p, installed_version: ver, installed_at: now, install_path: path, enabled: true, config_path: None };
        assert(installed_as(inst, pkg, vi as int, now, self.config.install_dir@));
        let ghost before = self.installed@;
        let ghost names = installed_names(before);
        match self.find_installed(name.as_str()) {
            Some(i) => {
                self.installed.set(i, inst);
                proof {
                    let after = self.installed@;
                    assert(installed_names(after) =~= names.update(i as int, name@));
                    assert(first_at(installed_names(after), name@, i as int));
                    lemma_first_index(installed_names(after), name@, i as int);
                    assert(after == put_installed(before, inst));
                    assert(after[i as int] == inst);
                    assert(installed_after(before, after, pkg, vi as int, now, self.config.install_dir@));
                }
            },
            None => {
                self.installed.push(inst);
                proof {
                    let after = self.installed@;
                    assert(installed_names(after) =~= names.push(name@));
                    crate::listing::lemma_first_index_push_new(names, name@);
                    assert(after == put_installed(before, inst));
                    assert(after[before.len() as int] == inst);
                    assert(installed_after(before, after, pkg, vi as int, now, self.config.install_dir@));
                }
            },
        }
        Ok(())
    }

    /// Installs a plugin from what the repositories gave for `plugin_name`
    /// (`details`): refused when they gave nothing, else as
    /// `install_outcome` says.
    pub fn install_plugin(&mut self, plugin_name: &str, details: Option<PluginPackage>, version: Option<&str>, now: i64) -> (r: Result<(), MarketplaceError>)
        ensures
            match details {
                None => (r matches Err(e) && error_text(e) == not_found_text(plugin_name@))
                    && final(self).installed_spec() == old(self).installed_spec(),
                Some(p) => install_outcome(old(self).installed_spec(), final(self).installed_spec(), r, p,
                    opt_text(version), now, old(self).config_spec().install_dir@),
            },
            final(self).repositories_spec() == old(self).repositories_spec(),
            final(self).config_spec() == old(self).config_spec(),
    {
        match details {
            Some(p) => self.install_package(p, version, now),
            None => Err(MarketplaceError::Validation(join2("插件未找到: ", plugin_name))),
        }
    }

    /// Forgets the plugin installed under `plugin_name` and returns its
    /// record; refused when there is none.
    pub fn uninstall_plugin(&mut self, plugin_name: &str) -> (r: Result<InstalledPlugin, MarketplaceError>)
        ensures
            match first_index(installed_names(old(self).installed_spec()), plugin_name@) {
                Some(i) => r == Ok::<InstalledPlugin, MarketplaceError>(old(self).installed_spec()[i])
                    && final(self).installed_spec() == old(self).installed_spec().remove(i),
                None => (r matches Err(e) && error_text(e) == not_installed_text(plugin_name@))
                    && final(self).installed_spec() == old(self).installed_spec(),
            },
            final(self).repositories_spec() == old(self).repositories_spec(),
            final(self).config_spec() == old(self).config_spec(),
    {
        match self.find_installed(plugin_name) {
            Some(i) => {
                let p = self.installed.remove(i);
                Ok(p)
            },
            None => Err(MarketplaceError::Validation(join2("插件未安装: ", plugin_name))),
        }
    }

    /// Updates the plugin installed under `plugin_name` from what the
    /// repositories gave for it (`details`): refused when it is not
    /// installed, they gave nothing or it has no stable version; nothing
    /// happens when the newest stable version is not newer than the one
    /// installed; else the plugin is uninstalled and that version installed.
    pub fn update_plugin(&mut self, plugin_name: &str, details: Option<PluginPackage>, now: i64) -> (r: Result<(), MarketplaceError>)
        ensures
            final(self).repositories_spec() == old(self).repositories_spec(),
            final(self).config_spec() == old(self).config_spec(),
            match first_index(installed_names(old(self).installed_spec()), plugin_name@) {
                None => (r matches Err(e) && error_text(e) == not_installed_text(plugin_name@))
                    && final(self).installed_spec() == old(self).installed_spec(),
                Some(i) => match details {
                    None => (r matches Err(e) && error_text(e) == not_found_text(plugin_name@))
                        && final(self).installed_spec() == old(self).installed_spec(),
                    Some(p) => match latest_stable(p.versions@) {
                        None => (r matches Err(e) && error_text(e) == "没有稳定版本"@)
                            && final(self).installed_spec() == old(self).installed_spec(),
                        Some(j) => if text_lt(old(self).installed_spec()[i].installed_version@, p.versions@[j].version@) {
                            install_outcome(old(self).installed_spec().remove(i), final(self).installed_spec(), r, p,
                                Some(p.versions@[j].version@), now, old(self).config_spec().install_dir@)
                        } else {
                            r is Ok && final(self).installed_spec() == old(self).installed_spec()
                        },
                    },
                },
            },
    {
        let i = match self.find_installed(plugin_name) {
            Some(i) => i,
            None => return Err(MarketplaceError::Validation(join2("插件未安装: ", plugin_name))),
        };
        let current = self.installed[i].installed_version.clone();
        let p = match details {
            Some(p) => p,
            None => return Err(MarketplaceError::Validation(join2("插件未找到: ", plugin_name))),
        };
        let j = match find_latest_stable(&p.versions) {
            Some(j) => j,
            None => return Err(MarketplaceError::Validation(String::from_str("没有稳定版本"))),
        };
        let latest = p.versions[j].version.clone();
        if !text_less(current.as_str(), latest.as_str()) {
            return Ok(());
        }
        let _removed = self.uninstall_plugin(plugin_name);
        self.install_package(p, Some(latest.as_str()), now)
    }

    /// The plugins installed.
    pub fn list_installed_plugins(&self) -> (r: Vec<&InstalledPlugin>)
        ensures
            installed_derefs(r@) == self.installed_spec(),
    {
        let mut out: Vec<&InstalledPlugin> = Vec::new();
        let mut i: usize = 0;
        while i < self.installed.len()
            invariant
                i <= self.installed@.len(),
                out@.len() == i,
                forall|j: int| 0 <= j < i ==> *(#[trigger] out@[j]) == self.installed@[j],
            decreases self.installed@.len() - i,
        {
            out.push(&self.installed[i]);
            i = i + 1;
        }
        assert(installed_derefs(out@) =~= self.installed@);
        out
    }

    /// The updates that `catalog` (what the repositories gave for the
    /// plugins installed) shows (see `pending_updates`).
    pub fn check_updates(&self, catalog: &Vec<PluginPackage>) -> (r: Vec<PluginUpdate>)
        ensures
            update_views(r@) == pending_updates(self.installed_spec(), catalog@),
    {
        let ghost all = self.installed@;
        let ghost names = package_names(catalog@);
        let n = self.installed.len();
        let mut out: Vec<PluginUpdate> = Vec::new();
        let mut i: usize = 0;
        while i < n
            invariant
                n == all.len(),
                all == self.installed@,
                names == package_names(catalog@),
                i <= n,
                update_views(out@) == pending_updates(all.take(i as int), catalog@),
            decreases n - i,
        {
            assert(all.take(i + 1).drop_last() =~= all.take(i as int));
            assert(all.take(i + 1).last() == all[i as int]);
            let inst = &self.installed[i];
            let name = inst.package.metadata.name.as_str();
            let mut c: usize = 0;
            let mut found: Option<usize> = None;
            while c < catalog.len() && found.is_none()
                invariant
                    names == package_names(catalog@),
                    c <= catalog@.len(),
                    found is None ==> forall|m: int| 0 <= m < c ==> names[m] != name@,
                    found matches Some(k) ==> k < catalog@.len() && first_at(names, name@, k as int),
                decreases catalog@.len() - c,
            {
                if same_text(catalog[c].metadata.name.as_str(), name) {
                    assert(first_at(names, name@, c as int));
                    found = Some(c);
                }
                c = c + 1;
            }
            let ghost before = update_views(out@);
            let ghost step = all.take(i + 1);
            assert(step.last() == *inst);
            assert(step.drop_last() =~= all.take(i as int));
            match found {
                Some(k) => {
                    proof {
                        lemma_first_index(names, name@, k as int);
                        assert(package_names(catalog@) == names);
                    }
                    match find_latest_stable(&catalog[k].versions) {
                        Some(j) => {
                            let latest = &catalog[k].versions[j];
                            if text_less(inst.installed_version.as_str(), latest.version.as_str()) {
                                let u = PluginUpdate {
                                    plugin_name: inst.package.metadata.name.clone(),
                                    current_version: inst.installed_version.clone(),
                                    latest_version: latest.version.clone(),
                                    changelog: latest.changelog.clone(),
                                };
                                out.push(u);
                                assert(update_views(out@) =~= before.push((u.plugin_name@, u.current_version@,
                                    u.latest_version@, u.changelog@)));
                            } else {
                            }
                        },
                        None => {},
                    }
                },
                None => {
                    proof {
                        lemma_no_first_index(names, name@);
                    }
                },
            }
            i = i + 1;
        }
        assert(all.take(n as int) =~= all);
        out
    }

    /// One page of what a search finds among `found`, the plugins that the
    /// enabled repositories offered, in the order they were asked: ordered
    /// as the query says, runs of one name merged, then paged.
    pub fn search_plugins(&self, query: &SearchQuery, found: Vec<PluginPackage>) -> (r: SearchResult)
        requires
            query.page * query.page_size <= search_found(found@, query.sort_by).len(),
            query.page * query.page_size + query.page_size <= usize::MAX,
        ensures
            r.plugins@ == search_page(search_found(found@, query.sort_by), query.page, query.page_size),
            r.total_count == search_found(found@, query.sort_by).len(),
            r.page == query.page,
            r.page_size == query.page_size,
    {
        let merged = merge_found(found, query.sort_by);
        let ghost all = merged@;
        let total = merged.len();
        assert(query.page * query.page_size <= usize::MAX);
        let start = query.page * query.page_size;
        let end = if start + query.page_size < total { start + query.page_size } else { total };
        let mut rest = merged;
        rest.truncate(end);
        assert(rest@ =~= all.subrange(0, end as int));
        let mut k: usize = 0;
        while k < start
            invariant
                k <= start,
                start <= end,
                end <= all.len(),
                rest@ == all.subrange(k as int, end as int),
            decreases start - k,
        {
            rest.remove(0);
            assert(rest@ =~= all.subrange(k + 1, end as int));
            k = k + 1;
        }
        SearchResult { plugins: rest, total_count: total, page: query.page, page_size: query.page_size }
    }
}

/// Whether no two installed plugins share a name.
pub open spec fn names_unique(s: Seq<InstalledPlugin>) -> bool {
    forall|i: int, j: int| 0 <= i < j < s.len() ==> s[i].package.metadata.name@ != s[j].package.metadata.name@
}

/// Installing keeps one record per name: it replaces the record of the
/// plugin's name, if there is one.
pub proof fn lemma_install_keeps_names_unique(
    before: Seq<InstalledPlugin>,
    after: Seq<InstalledPlugin>,
    p: PluginPackage,
    vi: int,
    now: i64,
    dir: Seq<char>,
)
    requires
        names_unique(before),
        installed_after(before, after, p, vi, now, dir),
    ensures
        names_unique(after),
{
    let names = installed_names(before);
    let x = p.metadata.name@;
    let k = first_index(installed_names(after), x)->0;
    let inst = after[k];
    assert(inst.package.metadata.name@ == x);
    match first_index(names, x) {
        Some(i) => {
            assert(first_at(names, x, i)) by {
                assert(exists|m: int| first_at(names, x, m));
            }
            assert(after == before.update(i, inst));
            assert forall|a: int, b: int| 0 <= a < b < after.len() implies
                after[a].package.metadata.name@ != after[b].package.metadata.name@ by {
                assert(names[i] == before[i].package.metadata.name@);
            }
        },
        None => {
            lemma_first_index_none(names, x);
            assert(after == before.push(inst));
            assert forall|a: int, b: int| 0 <= a < b < after.len() implies
                after[a].package.metadata.name@ != after[b].package.metadata.name@ by {
                if b == before.len() {
                    assert(names[a] == before[a].package.metadata.name@);
                }
            }
        },
    }
}

/// Uninstalling a plugin that was not installed before its installation
/// gives back the plugins installed before.
pub proof fn lemma_uninstall_undoes_install(
    before: Seq<InstalledPlugin>,
    after: Seq<InstalledPlugin>,
    p: PluginPackage,
    vi: int,
    now: i64,
    dir: Seq<char>,
)
    requires
        installed_after(before, after, p, vi, now, dir),
        first_index(installed_names(before), p.metadata.name@) is None,
    ensures
        first_index(installed_names(after), p.metadata.name@) == Some(before.len() as int),
        after.remove(before.len() as int) == before,
{
    let x = p.metadata.name@;
    let k = first_index(installed_names(after), x)->0;
    let inst = after[k];
    assert(after == before.push(inst));
    assert(installed_names(after) =~= installed_names(before).push(x));
    crate::listing::lemma_first_index_push_new(installed_names(before), x);
    assert(after.remove(before.len() as int) =~= before);
}

/// The number a plugin is ordered by when results are sorted by downloads,
/// rating, update time or creation time (highest first).
pub open spec fn rank_key(p: PluginPackage, by: SortBy) -> int {
    match by {
        SortBy::Downloads => p.download_stats.total_downloads as int,
        SortBy::Rating => p.ratings.average_rating_milli as int,
        SortBy::Updated => p.metadata.updated_at as int,
        SortBy::Created => p.metadata.created_at as int,
        _ => 0,
    }
}

/// Whether a list of plugins is ordered highest first by `rank_key`.
pub open spec fn ranked_high_first(s: Seq<PluginPackage>, by: SortBy) -> bool {
    forall|i: int, j: int| 0 <= i < j < s.len() ==> rank_key(s[i], by) >= rank_key(s[j], by)
}

/// A sort order by a number, highest first.
pub open spec fn numeric_order(by: SortBy) -> bool {
    by is Downloads || by is Rating || by is Updated || by is Created
}

proof fn lemma_insert_ranked_bound(s: Seq<PluginPackage>, x: PluginPackage, by: SortBy, bound: int)
    requires
        numeric_order(by),
        forall|k: int| 0 <= k < s.len() ==> rank_key(#[trigger] s[k], by) <= bound,
        rank_key(x, by) <= bound,
    ensures
        insert_ranked(s, x, by).len() == s.len() + 1,
        forall|k: int| 0 <= k < insert_ranked(s, x, by).len() ==> rank_key(#[trigger] insert_ranked(s, x, by)[k], by) <= bound,
    decreases s.len(),
{
    let r = insert_ranked(s, x, by);
    if s.len() == 0 {
    } else if ranks_before(x, s[0], by) {
        assert forall|k: int| 0 <= k < r.len() implies rank_key(#[trigger] r[k], by) <= bound by {
            if k > 0 { assert(r[k] == s[k - 1]); }
        }
    } else {
        let rest = s.drop_first();
        lemma_insert_ranked_bound(rest, x, by, bound);
        assert forall|k: int| 0 <= k < r.len() implies rank_key(#[trigger] r[k], by) <= bound by {
            if k > 0 { assert(r[k] == insert_ranked(rest, x, by)[k - 1]); }
        }
    }
}

proof fn lemma_insert_ranked_ordered(s: Seq<PluginPackage>, x: PluginPackage, by: SortBy)
    requires
        numeric_order(by),
        ranked_high_first(s, by),
    ensures
        ranked_high_first(insert_ranked(s, x, by), by),
    decreases s.len(),
{
    let r = insert_ranked(s, x, by);
    if s.len() == 0 {
    } else if ranks_before(x, s[0], by) {
        assert forall|i: int, j: int| 0 <= i < j < r.len() implies rank_key(r[i], by) >= rank_key(r[j], by) by {
            if i == 0 {
                assert(r[j] == s[j - 1]);
                assert(rank_key(s[0], by) >= rank_key(s[j - 1], by));
            } else {
                assert(r[i] == s[i - 1]);
                assert(r[j] == s[j - 1]);
            }
        }
    } else {
        let rest = s.drop_first();
        assert(ranked_high_first(rest, by)) by {
            assert forall|i: int, j: int| 0 <= i < j < rest.len() implies rank_key(rest[i], by) >= rank_key(rest[j], by) by {
                assert(rest[i] == s[i + 1]);
                assert(rest[j] == s[j + 1]);
            }
        }
        lemma_insert_ranked_ordered(rest, x, by);
        assert forall|k: int| 0 <= k < rest.len() implies rank_key(#[trigger] rest[k], by) <= rank_key(s[0], by) by {
            assert(rest[k] == s[k + 1]);
        }
        lemma_insert_ranked_bound(rest, x, by, rank_key(s[0], by));
        let t = insert_ranked(rest, x, by);
        assert forall|i: int, j: int| 0 <= i < j < r.len() implies rank_key(r[i], by) >= rank_key(r[j], by) by {
            assert(r[j] == t[j - 1]);
            if i == 0 {
                assert(r[0] == s[0]);
            } else {
                assert(r[i] == t[i - 1]);
            }
        }
    }
}

proof fn lemma_sort_ranked_ordered(s: Seq<PluginPackage>, by: SortBy)
    requires
        numeric_order(by),
    ensures
        ranked_high_first(sort_ranked(s, by), by),
    decreases s.len(),
{
    if s.len() > 0 {
        lemma_sort_ranked_ordered(s.drop_last(), by);
        lemma_insert_ranked_ordered(sort_ranked(s.drop_last(), by), s.last(), by);
    }
}

proof fn lemma_dedup_names_bound(s: Seq<PluginPackage>, by: SortBy, bound: int)
    requires
        forall|k: int| 0 <= k < s.len() ==> rank_key(#[trigger] s[k], by) >= bound,
    ensures
        forall|k: int| 0 <= k < dedup_names(s).len() ==> rank_key(#[trigger] dedup_names(s)[k], by) >= bound,
    decreases s.len(),
{
    if s.len() > 0 {
        let init = s.drop_last();
        assert forall|k: int| 0 <= k < init.len() implies rank_key(#[trigger] init[k], by) >= bound by {
            assert(init[k] == s[k]);
        }
        lemma_dedup_names_bound(init, by, bound);
        let d = dedup_names(init);
        if !(d.len() > 0 && d.last().metadata.name@ == s.last().metadata.name@) {
            assert forall|k: int| 0 <= k < d.push(s.last()).len() implies rank_key(#[trigger] d.push(s.last())[k], by) >= bound by {
                if k < d.len() { assert(d.push(s.last())[k] == d[k]); }
            }
        }
    }
}

proof fn lemma_dedup_names_ordered(s: Seq<PluginPackage>, by: SortBy)
    requires
        ranked_high_first(s, by),
    ensures
        ranked_high_first(dedup_names(s), by),
    decreases s.len(),
{
    if s.len() > 0 {
        let init = s.drop_last();
        assert(ranked_high_first(init, by)) by {
            assert forall|i: int, j: int| 0 <= i < j < init.len() implies rank_key(init[i], by) >= rank_key(init[j], by) by {
                assert(init[i] == s[i]);
                assert(init[j] == s[j]);
            }
        }
        lemma_dedup_names_ordered(init, by);
        let d = dedup_names(init);
        if !(d.len() > 0 && d.last().metadata.name@ == s.last().metadata.name@) {
            assert forall|k: int| 0 <= k < init.len() implies rank_key(#[trigger] init[k], by) >= rank_key(s.last(), by) by {
                assert(init[k] == s[k]);
            }
            lemma_dedup_names_bound(init, by, rank_key(s.last(), by));
            let e = d.push(s.last());
            assert forall|i: int, j: int| 0 <= i < j < e.len() implies rank_key(e[i], by) >= rank_key(e[j], by) by {
                assert(e[i] == d[i]);
                if j < d.len() { assert(e[j] == d[j]); }
            }
        }
    }
}

/// Search results sorted by downloads, rating, update time or creation time
/// come highest first: on every page, a plugin never has a lower download
/// count, rating, update time or creation time than one after it.
pub proof fn lemma_search_ranked_high_first(found: Seq<PluginPackage>, by: SortBy, page: usize, page_size: usize)
    requires
        numeric_order(by),
        page * page_size <= search_found(found, by).len(),
    ensures
        ranked_high_first(search_found(found, by), by),
        ranked_high_first(search_page(search_found(found, by), page, page_size), by),
{
    lemma_sort_ranked_ordered(found, by);
    lemma_dedup_names_ordered(sort_ranked(found, by), by);
    let all = search_found(found, by);
    let p = search_page(all, page, page_size);
    let start = page * page_size;
    assert forall|i: int, j: int| 0 <= i < j < p.len() implies rank_key(p[i], by) >= rank_key(p[j], by) by {
        assert(p[i] == all[start + i]);
        assert(p[j] == all[start + j]);
    }
}

} // verus!
