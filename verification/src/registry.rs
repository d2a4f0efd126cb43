//! The site registry: an immutable mapping from lowercased hostname to the
//! bucket backing that site, built once at startup from a validated
//! configuration and read-only afterwards.

use vstd::prelude::*;
use crate::config::{Config, BucketConfig, ConfigError};
use crate::strutil::{lower, ascii_lower, str_eq, lemma_lower_idempotent};
use crate::s3access::{custom_region, new_bucket};

verus! {

/// One configured site: its lowercased hostname, the name of the bucket that
/// backs it, and the client handle bound to that bucket.
pub struct SiteEntry {
    pub hostname: String,
    pub bucket_name: String,
    pub handle: s3::Bucket,
}

/// The registry: one entry per configured site, keyed by lowercase hostname.
pub struct SiteRegistry {
    entries: Vec<SiteEntry>,
}

/// The mapping the entries stand for: lowercased hostname to bucket name,
/// later entries taking precedence (moot once hostnames are unique).
pub open spec fn entry_map(s: Seq<SiteEntry>) -> Map<Seq<char>, Seq<char>>
    decreases s.len(),
{
    if s.len() == 0 {
        Map::empty()
    } else {
        entry_map(s.drop_last()).insert(s.last().hostname@, s.last().bucket_name@)
    }
}

/// The mapping a configuration asks for: each hostname lowercased, mapped to
/// its site's bucket name.
pub open spec fn config_map(sites: Seq<(String, BucketConfig)>) -> Map<Seq<char>, Seq<char>>
    decreases sites.len(),
{
    if sites.len() == 0 {
        Map::empty()
    } else {
        config_map(sites.drop_last()).insert(
            lower(sites.last().0@),
            sites.last().1.bucket@,
        )
    }
}

/// Whether the configured hostnames are pairwise distinct after lowercasing.
pub open spec fn hostnames_unique(sites: Seq<(String, BucketConfig)>) -> bool {
    forall|i: int, j: int|
        0 <= i < j < sites.len() ==> lower((#[trigger] sites[i]).0@) != lower(
            (#[trigger] sites[j]).0@,
        )
}

/// Law: under hostname uniqueness, every configured site is resolvable in
/// the configuration's mapping, and resolves to its own bucket.
pub proof fn lemma_config_map_complete(sites: Seq<(String, BucketConfig)>, i: int)
    requires
        hostnames_unique(sites),
        0 <= i < sites.len(),
    ensures
        config_map(sites).contains_key(lower(sites[i].0@)),
        config_map(sites)[lower(sites[i].0@)] == sites[i].1.bucket@,
    decreases sites.len(),
{
    let dl = sites.drop_last();
    if i == sites.len() - 1 {
    } else {
        assert(hostnames_unique(dl)) by {
            assert(forall|p: int, q: int|
                0 <= p < q < dl.len() ==> lower((#[trigger] dl[p]).0@) != lower(
                    (#[trigger] dl[q]).0@,
                ));
        }
        lemma_config_map_complete(dl, i);
        assert(lower(sites[i].0@) != lower(sites[sites.len() - 1].0@));
    }
}

/// Law: the configuration's mapping resolves no hostname beyond the
/// configured ones.
pub proof fn lemma_config_map_only(sites: Seq<(String, BucketConfig)>, k: Seq<char>)
    requires
        config_map(sites).contains_key(k),
    ensures
        exists|i: int| 0 <= i < sites.len() && lower((#[trigger] sites[i]).0@) == k,
    decreases sites.len(),
{
    if sites.len() > 0 {
        let dl = sites.drop_last();
        if k == lower(sites.last().0@) {
            assert(lower(sites[sites.len() - 1].0@) == k);
        } else {
            lemma_config_map_only(dl, k);
            let i = choose|i: int| 0 <= i < dl.len() && lower((#[trigger] dl[i]).0@) == k;
            assert(lower(sites[i].0@) == k);
        }
    }
}

pub proof fn lemma_entry_map_push(s: Seq<SiteEntry>, e: SiteEntry)
    ensures
        entry_map(s.push(e)) == entry_map(s).insert(e.hostname@, e.bucket_name@),
{
    assert(s.push(e).drop_last() =~= s);
    assert(s.push(e).last() == e);
}

pub proof fn lemma_config_map_take(sites: Seq<(String, BucketConfig)>, i: int)
    requires
        0 <= i < sites.len(),
    ensures
        config_map(sites.take(i + 1)) == config_map(sites.take(i)).insert(
            lower(sites[i].0@),
            sites[i].1.bucket@,
        ),
{
    assert(sites.take(i + 1).drop_last() =~= sites.take(i));
    assert(sites.take(i + 1).last() == sites[i]);
}

/// A hostname is in the mapping exactly when some entry carries it.
pub proof fn lemma_entry_map_contains(s: Seq<SiteEntry>, k: Seq<char>)
    ensures
        entry_map(s).contains_key(k) <==> exists|i: int|
            0 <= i < s.len() && (#[trigger] s[i]).hostname@ == k,
    decreases s.len(),
{
    if s.len() > 0 {
        let dl = s.drop_last();
        lemma_entry_map_contains(dl, k);
        if entry_map(s).contains_key(k) {
            if k == s.last().hostname@ {
                assert(s[s.len() - 1].hostname@ == k);
            } else {
                let i = choose|i: int| 0 <= i < dl.len() && (#[trigger] dl[i]).hostname@ == k;
                assert(s[i].hostname@ == k);
            }
        }
        if exists|i: int| 0 <= i < s.len() && (#[trigger] s[i]).hostname@ == k {
            let i = choose|i: int| 0 <= i < s.len() && (#[trigger] s[i]).hostname@ == k;
            if i < s.len() - 1 {
                assert(dl[i].hostname@ == k);
            }
        }
    }
}

/// With pairwise-distinct hostnames, the entry at position `i` pins down what
/// the mapping stores under its hostname.
pub proof fn lemma_entry_map_at(s: Seq<SiteEntry>, i: int)
    requires
        0 <= i < s.len(),
        forall|p: int, q: int|
            0 <= p < q < s.len() ==> (#[trigger] s[p]).hostname@ != (#[trigger] s[q]).hostname@,
    ensures
        entry_map(s).contains_key(s[i].hostname@),
        entry_map(s)[s[i].hostname@] == s[i].bucket_name@,
    decreases s.len(),
{
    let dl = s.drop_last();
    if i == s.len() - 1 {
    } else {
        lemma_entry_map_at(dl, i);
        assert(s[i].hostname@ != s[s.len() - 1].hostname@);
    }
}

impl SiteRegistry {
    /// The registry's well-formedness: every key lowercase, keys pairwise
    /// distinct.
    pub closed spec fn wf(&self) -> bool {
        &&& forall|i: int|
            0 <= i < self.entries@.len() ==> (#[trigger] self.entries@[i]).hostname@ == lower(
                self.entries@[i].hostname@,
            )
        &&& forall|p: int, q: int|
            0 <= p < q < self.entries@.len() ==> (#[trigger] self.entries@[p]).hostname@ != (
            #[trigger] self.entries@[q]).hostname@
    }

    /// The hostname-to-bucket mapping this registry stands for.
    pub closed spec fn view(&self) -> Map<Seq<char>, Seq<char>> {
        entry_map(self.entries@)
    }

    /// How many sites are registered, in the abstract.
    pub closed spec fn num_sites(&self) -> nat {
        self.entries@.len()
    }

    /// How many sites are registered.
    pub fn site_count(&self) -> (n: usize)
        ensures
            n == self.num_sites(),
    {
        self.entries.len()
    }

    /// Builds the registry from a validated configuration: lowercases each
    /// hostname, rejects hostnames that coincide after lowercasing, and binds
    /// one bucket handle per site against the shared endpoint and the given
    /// credentials.
    ///
    /// On success the registry holds exactly the configured mapping and one
    /// handle per configured site; a configuration whose hostnames collide
    /// after lowercasing is always rejected.
    #[verifier::loop_isolation(false)]
    pub fn build(config: &Config, creds: s3::creds::Credentials) -> (r: Result<
        SiteRegistry,
        ConfigError,
    >)
        ensures
            r matches Ok(reg) ==> reg.wf() && reg@ == config_map(config.sites@)
                && reg.num_sites() == config.sites@.len(),
            config.sites@.len() == 0 ==> r is Ok,
            !hostnames_unique(config.sites@) ==> r is Err,
            r matches Err(e) ==> e is DuplicateHostname || e is BucketConstruction,
            r matches Err(ConfigError::DuplicateHostname(_)) ==> !hostnames_unique(
                config.sites@,
            ),
    {
        let region = custom_region(config.s3_region.as_str(), config.s3_endpoint.as_str());
        let n = config.sites.len();
        let mut entries: Vec<SiteEntry> = Vec::new();
        let mut i: usize = 0;
        while i < n
            invariant
                n == config.sites@.len(),
                0 <= i <= n,
                entries@.len() == i,
                forall|j: int|
                    0 <= j < i ==> (#[trigger] entries@[j]).hostname@ == lower(
                        config.sites@[j].0@,
                    ) && entries@[j].bucket_name@ == config.sites@[j].1.bucket@,
                forall|p: int, q: int|
                    0 <= p < q < i ==> (#[trigger] entries@[p]).hostname@ != (
                    #[trigger] entries@[q]).hostname@,
                entry_map(entries@) == config_map(config.sites@.take(i as int)),
            decreases n - i,
        {
            let host_l = ascii_lower(config.sites[i].0.as_str());
            if Self::contains_hostname(&entries, host_l.as_str()) {
                return Err(ConfigError::DuplicateHostname(host_l));
            }
            let handle = match new_bucket(config.sites[i].1.bucket.as_str(), &region, &creds) {
                Ok(h) => h,
                Err(m) => {
                    return Err(ConfigError::BucketConstruction(m));
                },
            };
            let bucket_name = config.sites[i].1.bucket.clone();
            proof {
                lemma_entry_map_push(
                    entries@,
                    SiteEntry { hostname: host_l, bucket_name: bucket_name, handle: handle },
                );
                lemma_config_map_take(config.sites@, i as int);
            }
            entries.push(SiteEntry { hostname: host_l, bucket_name, handle });
            i = i + 1;
        }
        proof {
            assert(config.sites@.take(n as int) =~= config.sites@);
            assert forall|j: int| 0 <= j < n implies (#[trigger] entries@[j]).hostname@ == lower(
                entries@[j].hostname@,
            ) by {
                lemma_lower_idempotent(config.sites@[j].0@);
            }
            assert forall|p: int, q: int| 0 <= p < q < n implies lower(
                (#[trigger] config.sites@[p]).0@,
            ) != lower((#[trigger] config.sites@[q]).0@) by {
                assert(entries@[p].hostname@ != entries@[q].hostname@);
            }
        }
        Ok(SiteRegistry { entries })
    }

    /// Whether some entry already carries this (lowercased) hostname.
    fn contains_hostname(entries: &Vec<SiteEntry>, h: &str) -> (r: bool)
        ensures
            r == exists|j: int| 0 <= j < entries@.len() && (#[trigger] entries@[j]).hostname@
                == h@,
    {
        let n = entries.len();
        let mut j: usize = 0;
        while j < n
            invariant
                n == entries@.len(),
                0 <= j <= n,
                forall|k: int| 0 <= k < j ==> (#[trigger] entries@[k]).hostname@ != h@,
            decreases n - j,
        {
            if str_eq(entries[j].hostname.as_str(), h) {
                return true;
            }
            j = j + 1;
        }
        false
    }

    /// Looks up the site serving `host`, case-insensitively: the host is
    /// lowercased and matched against the registry's keys. Pure; no request
    /// is issued.
    pub fn lookup<'a>(&'a self, host: &str) -> (r: Option<&'a SiteEntry>)
        requires
            self.wf(),
        ensures
            match r {
                Some(e) => self@.contains_key(lower(host@)) && e.hostname@ == lower(host@)
                    && e.bucket_name@ == self@[lower(host@)],
                None => !self@.contains_key(lower(host@)),
            },
    {
        let key = ascii_lower(host);
        let n = self.entries.len();
        let mut j: usize = 0;
        while j < n
            invariant
                self.wf(),
                key@ == lower(host@),
                n == self.entries@.len(),
                0 <= j <= n,
                forall|k: int| 0 <= k < j ==> (#[trigger] self.entries@[k]).hostname@ != key@,
            decreases n - j,
        {
            if str_eq(self.entries[j].hostname.as_str(), key.as_str()) {
                proof {
                    lemma_entry_map_at(self.entries@, j as int);
                }
                return Some(&self.entries[j]);
            }
            j = j + 1;
        }
        proof {
            lemma_entry_map_contains(self.entries@, lower(host@));
        }
        None
    }
}

} // verus!
