//! Plugin packaging metadata: the manifest records a plugin carries in
//! a distribution registry, and the annotation map it travels as.

use vstd::prelude::*;

use crate::errors::Error;

verus! {

/// A plugin package's manifest.
#[derive(Debug, Clone, PartialEq, Eq)]
pub struct Package {
    pub name: String,
    pub description: String,
    pub metadata: Meta,
    pub version: String,
    pub license: Option<String>,
    pub repository: Option<String>,
}

/// The package's metadata table.
#[derive(Debug, Clone, PartialEq, Eq)]
pub struct Meta {
    pub kasuku: Kasuku,
}

/// The runtime-specific metadata of a plugin package.
#[derive(Debug, Clone, PartialEq, Eq)]
pub struct Kasuku {
    pub name: String,
    pub readme: String,
    pub icon: String,
    pub identifier: String,
    pub dependencies: Option<Vec<String>>,
}

/// A package manifest file.
#[derive(Debug, Clone, PartialEq, Eq)]
pub struct Config {
    pub package: Package,
}

/// Everything the runtime knows about a distributed plugin.
#[derive(Debug, Clone, PartialEq, Eq)]
pub struct PluginAnnotation {
    pub name: String,
    pub identifier: String,
    pub icon: String,
    pub description: String,
    pub version: String,
    pub readme: String,
    pub dependencies: Vec<String>,
    pub vendor: String,
    pub licenses: Option<String>,
    pub source: Option<String>,
    /// The compiled module bytes.
    pub wasm: Vec<u8>,
}

/// The dependency names joined by commas.
pub open spec fn spec_join_comma(deps: Seq<String>) -> Seq<char>
    decreases deps.len(),
{
    if deps.len() == 0 {
        Seq::empty()
    } else if deps.len() == 1 {
        deps[0]@
    } else {
        spec_join_comma(deps.drop_last()) + ","@ + deps.last()@
    }
}

/// Join the dependency names with commas.
pub fn join_comma(deps: &Vec<String>) -> (r: String)
    ensures
        r@ == spec_join_comma(deps@),
{
    let mut r = String::new();
    let mut i: usize = 0;
    while i < deps.len()
        invariant
            i <= deps@.len(),
            r@ == spec_join_comma(deps@.take(i as int)),
        decreases deps@.len() - i,
    {
        if i > 0 {
            r.append(",");
        }
        r.append(deps[i].as_str());
        proof {
            assert(deps@.take(i + 1 as int).drop_last() =~= deps@.take(i as int));
            assert(deps@.take(i + 1 as int).last() == deps@[i as int]);
        }
        i = i + 1;
    }
    proof {
        assert(deps@.take(deps@.len() as int) =~= deps@);
    }
    r
}

/// The comma-separated segments of a string, processed left to right:
/// a comma closes the current segment and opens an empty one.
pub open spec fn spec_split_comma(s: Seq<char>) -> Seq<Seq<char>>
    decreases s.len(),
{
    if s.len() == 0 {
        seq![Seq::empty()]
    } else {
        let rest = spec_split_comma(s.drop_last());
        if s.last() == ',' {
            rest.push(Seq::empty())
        } else {
            rest.update(rest.len() - 1, rest.last().push(s.last()))
        }
    }
}

/// A split has one segment more than the string has commas; never none.
proof fn lemma_split_nonempty(s: Seq<char>)
    ensures
        spec_split_comma(s).len() >= 1,
    decreases s.len(),
{
    if s.len() > 0 {
        lemma_split_nonempty(s.drop_last());
    }
}

/// Split a string at its commas.
pub fn split_comma(s: &str) -> (r: Vec<String>)
    ensures
        r.deep_view() == spec_split_comma(s@),
{
    let n = s.unicode_len();
    let mut out: Vec<String> = Vec::new();
    let mut start: usize = 0;
    let mut i: usize = 0;
    while i < n
        invariant
            start <= i <= n,
            n == s@.len(),
            out.deep_view().push(s@.subrange(start as int, i as int)) =~~= spec_split_comma(
                s@.take(i as int),
            ),
        decreases n - i,
    {
        let c = s.get_char(i);
        proof {
            assert(s@.take(i + 1 as int).drop_last() =~= s@.take(i as int));
            assert(s@.take(i + 1 as int).last() == s@[i as int]);
            lemma_split_nonempty(s@.take(i as int));
        }
        if c == ',' {
            let seg = s.substring_char(start, i).to_owned();
            out.push(seg);
            proof {
                assert(out.deep_view().push(s@.subrange(i + 1 as int, i + 1 as int))
                    =~~= spec_split_comma(s@.take(i + 1 as int)));
            }
            start = i + 1;
        } else {
            proof {
                let pre = spec_split_comma(s@.take(i as int));
                assert(pre.last() == s@.subrange(start as int, i as int));
                assert(s@.subrange(start as int, i + 1 as int) =~= s@.subrange(
                    start as int,
                    i as int,
                ).push(s@[i as int]));
                assert(out.deep_view().push(s@.subrange(start as int, i + 1 as int))
                    =~~= spec_split_comma(s@.take(i + 1 as int)));
            }
        }
        i = i + 1;
    }
    let last = s.substring_char(start, n).to_owned();
    out.push(last);
    proof {
        assert(s@.take(n as int) =~= s@);
        assert(out.deep_view() =~~= spec_split_comma(s@));
    }
    out
}

/// The first value filed under this key.
pub open spec fn spec_assoc(map: Seq<(String, String)>, key: Seq<char>) -> Option<String>
    decreases map.len(),
{
    if map.len() == 0 {
        None
    } else if map.first().0@ == key {
        Some(map.first().1)
    } else {
        spec_assoc(map.drop_first(), key)
    }
}

/// The first value filed under this key, cloned out of the map.
fn assoc_get(map: &Vec<(String, String)>, key: &str) -> (r: Option<String>)
    ensures
        match r {
            Some(v) => spec_assoc(map@, key@) == Some(v),
            None => spec_assoc(map@, key@) is None,
        },
{
    let mut i: usize = 0;
    proof {
        assert(map@.subrange(0, map@.len() as int) =~= map@);
    }
    loop
        invariant
            i <= map@.len(),
            spec_assoc(map@, key@) == spec_assoc(
                map@.subrange(i as int, map@.len() as int),
                key@,
            ),
        decreases map@.len() - i,
    {
        if i >= map.len() {
            proof {
                assert(map@.subrange(i as int, map@.len() as int).len() == 0);
            }
            return None;
        }
        proof {
            assert(map@.subrange(i as int, map@.len() as int).first() == map@[i as int]);
        }
        if map[i].0.eq(&key.to_owned()) {
            return Some(map[i].1.clone());
        }
        proof {
            assert(map@.subrange(i as int, map@.len() as int).drop_first() =~= map@.subrange(
                i + 1 as int,
                map@.len() as int,
            ));
        }
        i = i + 1;
    }
}

/// The value filed under this key, or empty.
pub open spec fn spec_assoc_or_empty(map: Seq<(String, String)>, key: Seq<char>) -> Seq<char> {
    match spec_assoc(map, key) {
        Some(v) => v@,
        None => Seq::empty(),
    }
}

impl PluginAnnotation {
    /// The registry annotation map of this plugin: each field under its
    /// well-known key, the dependencies joined by commas, and the
    /// optional fields only when present, in a fixed order.
    pub fn to_annotations(&self) -> (r: Vec<(String, String)>)
        ensures
            r@.len() == 9 + (if self.source is Some {
                1int
            } else {
                0int
            }) + (if self.licenses is Some {
                1int
            } else {
                0int
            }),
            r@[0].0@ == "org.opencontainers.image.title"@ && r@[0].1 == self.name,
            r@[1].0@ == "io.kasuku.plugin.identifier"@ && r@[1].1 == self.identifier,
            r@[2].0@ == "io.kasuku.plugin.icon"@ && r@[2].1 == self.icon,
            r@[3].0@ == "org.opencontainers.image.description"@ && r@[3].1 == self.description,
            r@[4].0@ == "org.opencontainers.image.version"@ && r@[4].1 == self.version,
            r@[5].0@ == "io.kasuku.plugin.version"@ && r@[5].1@ == "0.1.0"@,
            r@[6].0@ == "org.opencontainers.image.url"@ && r@[6].1 == self.readme,
            r@[7].0@ == "io.kasuku.plugin.dependencies"@ && r@[7].1@ == spec_join_comma(
                self.dependencies@,
            ),
            r@[8].0@ == "org.opencontainers.image.vendor"@ && r@[8].1 == self.vendor,
            self.source matches Some(src) ==> r@[9].0@ == "org.opencontainers.image.source"@
                && r@[9].1 == src,
            self.licenses matches Some(lic) ==> ({
                let li = if self.source is Some {
                    10int
                } else {
                    9int
                };
                r@[li].0@ == "org.opencontainers.image.licenses"@ && r@[li].1 == lic
            }),
    {
        let mut r: Vec<(String, String)> = Vec::new();
        r.push(("org.opencontainers.image.title".to_owned(), self.name.clone()));
        r.push(("io.kasuku.plugin.identifier".to_owned(), self.identifier.clone()));
        r.push(("io.kasuku.plugin.icon".to_owned(), self.icon.clone()));
        r.push(("org.opencontainers.image.description".to_owned(), self.description.clone()));
        r.push(("org.opencontainers.image.version".to_owned(), self.version.clone()));
        r.push(("io.kasuku.plugin.version".to_owned(), "0.1.0".to_owned()));
        r.push(("org.opencontainers.image.url".to_owned(), self.readme.clone()));
        r.push(("io.kasuku.plugin.dependencies".to_owned(), join_comma(&self.dependencies)));
        r.push(("org.opencontainers.image.vendor".to_owned(), self.vendor.clone()));
        match &self.source {
            Some(src) => {
                r.push(("org.opencontainers.image.source".to_owned(), src.clone()));
            },
            None => {},
        }
        match &self.licenses {
            Some(lic) => {
                r.push(("org.opencontainers.image.licenses".to_owned(), lic.clone()));
            },
            None => {},
        }
        r
    }

    /// Rebuild a plugin's record from its annotation map. Every field
    /// is optional and defaults to empty, except the identifier: a map
    /// without one is a routing error. The module bytes do not travel
    /// in the map and come back empty.
    pub fn from_annotations(map: &Vec<(String, String)>) -> (r: Result<PluginAnnotation, Error>)
        ensures
            r is Ok <==> spec_assoc(map@, "io.kasuku.plugin.identifier"@) is Some,
            r matches Err(e) ==> e matches Error::PluginError(_),
            r matches Ok(p) ==> ({
                &&& p.name@ == spec_assoc_or_empty(map@, "org.opencontainers.image.title"@)
                &&& Some(p.identifier) == spec_assoc(map@, "io.kasuku.plugin.identifier"@)
                &&& p.icon@ == spec_assoc_or_empty(map@, "io.kasuku.plugin.icon"@)
                &&& p.description@ == spec_assoc_or_empty(
                    map@,
                    "org.opencontainers.image.description"@,
                )
                &&& p.version@ == spec_assoc_or_empty(map@, "org.opencontainers.image.version"@)
                &&& p.readme@ == spec_assoc_or_empty(map@, "org.opencontainers.image.url"@)
                &&& p.vendor@ == spec_assoc_or_empty(map@, "org.opencontainers.image.vendor"@)
                &&& p.licenses == spec_assoc(map@, "org.opencontainers.image.licenses"@)
                &&& p.source == spec_assoc(map@, "org.opencontainers.image.source"@)
                &&& (match spec_assoc(map@, "io.kasuku.plugin.dependencies"@) {
                    Some(d) => p.dependencies.deep_view() == spec_split_comma(d@),
                    None => p.dependencies@.len() == 0,
                })
                &&& p.wasm@.len() == 0
            }),
    {
        let identifier = match assoc_get(map, "io.kasuku.plugin.identifier") {
            Some(v) => v,
            None => {
                return Err(
                    Error::PluginError(
                        "Invalid plugin config. Missing plugin identifier key".to_owned(),
                    ),
                );
            },
        };
        let name = string_or_empty(assoc_get(map, "org.opencontainers.image.title"));
        let icon = string_or_empty(assoc_get(map, "io.kasuku.plugin.icon"));
        let description = string_or_empty(
            assoc_get(map, "org.opencontainers.image.description"),
        );
        let version = string_or_empty(assoc_get(map, "org.opencontainers.image.version"));
        let readme = string_or_empty(assoc_get(map, "org.opencontainers.image.url"));
        let vendor = string_or_empty(assoc_get(map, "org.opencontainers.image.vendor"));
        let licenses = assoc_get(map, "org.opencontainers.image.licenses");
        let source = assoc_get(map, "org.opencontainers.image.source");
        let dependencies: Vec<String> = match assoc_get(map, "io.kasuku.plugin.dependencies") {
            Some(d) => split_comma(d.as_str()),
            None => Vec::new(),
        };
        Ok(
            PluginAnnotation {
                name,
                identifier,
                icon,
                description,
                version,
                readme,
                dependencies,
                vendor,
                licenses,
                source,
                wasm: Vec::new(),
            },
        )
    }
}

/// The held string, or empty.
fn string_or_empty(o: Option<String>) -> (r: String)
    ensures
        o matches Some(v) ==> r == v,
        o is None ==> r@ == Seq::<char>::empty(),
{
    match o {
        Some(v) => v,
        None => String::new(),
    }
}

} // verus!
