//! Builds the HTML snippet that links a page to its bundled assets.
//!
//! The bundler writes a manifest mapping source names to hashed output
//! files; the application parses that JSON and hands the entries in here as
//! plain values. The asset table is kept as an association list in
//! insertion order, so what the snippet holds — and in which order — is
//! pinned down exactly.

use crate::strutil::{
    after_last, lemma_after_last_absent, lemma_after_last_at, rfind_char, str_eq,
};
use vstd::prelude::*;

verus! {

/// One entry of the bundler's manifest, as plain values: the source key,
/// the output file (absent for entries that produce none), and the css
/// files emitted alongside.
#[derive(Debug)]
pub struct ManifestEntry {
    pub key: String,
    pub file: Option<String>,
    pub css: Vec<String>,
}

/// Inserting into an association list: the first pair holding the key is
/// replaced in place, a fresh key is appended.
pub open spec fn spec_insert(
    m: Seq<(Seq<char>, Seq<char>)>,
    k: Seq<char>,
    v: Seq<char>,
) -> Seq<(Seq<char>, Seq<char>)>
    decreases m.len(),
{
    if m.len() == 0 {
        seq![(k, v)]
    } else if m[0].0 == k {
        seq![(k, v)] + m.skip(1)
    } else {
        seq![m[0]] + spec_insert(m.skip(1), k, v)
    }
}

/// The value of the first pair holding `k`, if any.
pub open spec fn spec_map_get(m: Seq<(Seq<char>, Seq<char>)>, k: Seq<char>) -> Option<Seq<char>>
    decreases m.len(),
{
    if m.len() == 0 {
        None
    } else if m[0].0 == k {
        Some(m[0].1)
    } else {
        spec_map_get(m.skip(1), k)
    }
}

/// Inserting at the first pair holding the key replaces that pair.
proof fn lemma_insert_at(m: Seq<(Seq<char>, Seq<char>)>, k: Seq<char>, v: Seq<char>, i: int)
    requires
        0 <= i < m.len(),
        m[i].0 == k,
        forall|j: int| 0 <= j < i ==> (#[trigger] m[j]).0 != k,
    ensures
        spec_insert(m, k, v) =~= m.update(i, (k, v)),
    decreases i,
{
    if i == 0 {
    } else {
        lemma_insert_at(m.skip(1), k, v, i - 1);
        assert(m.skip(1).update(i - 1, (k, v)) =~= m.update(i, (k, v)).skip(1));
    }
}

/// Inserting a key no pair holds appends the pair.
proof fn lemma_insert_absent(m: Seq<(Seq<char>, Seq<char>)>, k: Seq<char>, v: Seq<char>)
    requires
        forall|j: int| 0 <= j < m.len() ==> (#[trigger] m[j]).0 != k,
    ensures
        spec_insert(m, k, v) =~= m.push((k, v)),
    decreases m.len(),
{
    if m.len() > 0 {
        lemma_insert_absent(m.skip(1), k, v);
        assert(m.skip(1).push((k, v)) =~= m.push((k, v)).skip(1));
    }
}

/// An association list of asset names to output files, in insertion order.
pub struct AssetMap {
    entries: Vec<(String, String)>,
}

impl View for AssetMap {
    type V = Seq<(Seq<char>, Seq<char>)>;

    closed spec fn view(&self) -> Seq<(Seq<char>, Seq<char>)> {
        Seq::new(self.entries@.len(), |i: int| (self.entries@[i].0@, self.entries@[i].1@))
    }
}

impl AssetMap {
    /// An empty table.
    pub fn new() -> (r: AssetMap)
        ensures
            r@ =~= Seq::<(Seq<char>, Seq<char>)>::empty(),
    {
        AssetMap { entries: Vec::new() }
    }

    /// How many pairs the table holds.
    pub fn len(&self) -> (r: usize)
        ensures
            r == self@.len(),
    {
        self.entries.len()
    }

    /// The pair at a position, keys in insertion order.
    pub fn entry_at(&self, i: usize) -> (r: (String, String))
        requires
            i < self@.len(),
        ensures
            r.0@ == self@[i as int].0,
            r.1@ == self@[i as int].1,
    {
        let e = &self.entries[i];
        (e.0.clone(), e.1.clone())
    }

    /// The position of the first pair holding `key`, if any.
    fn position_of_key(&self, key: &str) -> (r: Option<usize>)
        ensures
            match r {
                Some(k) => {
                    &&& k < self@.len()
                    &&& self@[k as int].0 == key@
                    &&& forall|j: int| 0 <= j < k ==> (#[trigger] self@[j]).0 != key@
                    &&& spec_map_get(self@, key@) == Some(self@[k as int].1)
                },
                None => {
                    &&& spec_map_get(self@, key@) is None
                    &&& forall|j: int| 0 <= j < self@.len() ==> (#[trigger] self@[j]).0 != key@
                },
            },
    {
        let n = self.entries.len();
        let mut i: usize = 0;
        assert(self@.skip(0) =~= self@);
        while i < n
            invariant
                i <= n,
                n == self@.len(),
                spec_map_get(self@, key@) == spec_map_get(self@.skip(i as int), key@),
                forall|j: int| 0 <= j < i ==> (#[trigger] self@[j]).0 != key@,
            decreases n - i,
        {
            assert(self@.skip(i as int)[0] == self@[i as int]);
            if str_eq(self.entries[i].0.as_str(), key) {
                return Some(i);
            }
            assert(self@.skip(i as int).skip(1) =~= self@.skip(i as int + 1));
            i = i + 1;
        }
        assert(self@.skip(n as int) =~= Seq::<(Seq<char>, Seq<char>)>::empty());
        None
    }

    /// Writes a pair, overwriting the value of an already present key.
    pub fn insert(&mut self, key: String, value: String)
        ensures
            final(self)@ =~= spec_insert(old(self)@, key@, value@),
    {
        match self.position_of_key(key.as_str()) {
            Some(i) => {
                proof {
                    lemma_insert_at(self@, key@, value@, i as int);
                }
                let e = &mut self.entries[i];
                e.0 = key;
                e.1 = value;
            },
            None => {
                proof {
                    lemma_insert_absent(self@, key@, value@);
                }
                self.entries.push((key, value));
            },
        }
    }

    /// Reads the value stored under `key`, if any.
    pub fn get(&self, key: &str) -> (r: Option<String>)
        ensures
            match r {
                Some(v) => spec_map_get(self@, key@) == Some(v@),
                None => spec_map_get(self@, key@) is None,
            },
    {
        match self.position_of_key(key) {
            Some(i) => Some(self.entries[i].1.clone()),
            None => None,
        }
    }
}

/// One manifest entry folded into the table: the entry's file under its
/// key, and, for a js file, each emitted css file under its own base name.
pub open spec fn spec_entry_step(
    m: Seq<(Seq<char>, Seq<char>)>,
    e: ManifestEntry,
) -> Seq<(Seq<char>, Seq<char>)> {
    match e.file {
        None => m,
        Some(f) => {
            let m1 = spec_insert(m, e.key@, f@);
            if after_last(f@, '.') == "js"@ {
                spec_css_list(m1, e.css@)
            } else {
                m1
            }
        },
    }
}

/// The css files of one entry folded into the table, each under its base
/// name.
pub open spec fn spec_css_list(
    m: Seq<(Seq<char>, Seq<char>)>,
    css: Seq<String>,
) -> Seq<(Seq<char>, Seq<char>)>
    decreases css.len(),
{
    if css.len() == 0 {
        m
    } else {
        spec_css_list(
            spec_insert(m, after_last(css[0]@, '/'), after_last(css[0]@, '/')),
            css.skip(1),
        )
    }
}

/// All manifest entries folded into the table, first to last.
pub open spec fn spec_manifest_from(
    m: Seq<(Seq<char>, Seq<char>)>,
    entries: Seq<ManifestEntry>,
) -> Seq<(Seq<char>, Seq<char>)>
    decreases entries.len(),
{
    if entries.len() == 0 {
        m
    } else {
        spec_manifest_from(spec_entry_step(m, entries[0]), entries.skip(1))
    }
}

/// The suffix of `s` after the last occurrence of `sep`, as an owned string.
fn suffix_after_last(s: &str, sep: char) -> (r: String)
    ensures
        r@ == after_last(s@, sep),
{
    let n = s.unicode_len();
    match rfind_char(s, sep) {
        Some(p) => {
            proof {
                lemma_after_last_at(s@, sep, p as int);
            }
            s.substring_char(p + 1, n).to_owned()
        },
        None => {
            proof {
                lemma_after_last_absent(s@, sep);
            }
            s.substring_char(0, n).to_owned()
        },
    }
}

/// Builds the asset table from the bundler's manifest entries.
pub fn get_manifest_assets(entries: &Vec<ManifestEntry>) -> (r: AssetMap)
    ensures
        r@ =~= spec_manifest_from(Seq::<(Seq<char>, Seq<char>)>::empty(), entries@),
{
    let mut assets = AssetMap::new();
    let n = entries.len();
    let mut i: usize = 0;
    assert(entries@.skip(0) =~= entries@);
    while i < n
        invariant
            i <= n,
            n == entries@.len(),
            spec_manifest_from(assets@, entries@.skip(i as int)) =~= spec_manifest_from(
                Seq::<(Seq<char>, Seq<char>)>::empty(),
                entries@,
            ),
        decreases n - i,
    {
        assert(entries@.skip(i as int)[0] == entries@[i as int]);
        let entry = &entries[i];
        match &entry.file {
            None => {},
            Some(f) => {
                assets.insert(entry.key.clone(), f.clone());
                let ext = suffix_after_last(f.as_str(), '.');
                if str_eq(ext.as_str(), "js") {
                    let ghost m1 = assets@;
                    let cn = entry.css.len();
                    let mut c: usize = 0;
                    assert(entry.css@.skip(0) =~= entry.css@);
                    while c < cn
                        invariant
                            c <= cn,
                            cn == entry.css@.len(),
                            spec_css_list(assets@, entry.css@.skip(c as int)) =~= spec_css_list(
                                m1,
                                entry.css@,
                            ),
                        decreases cn - c,
                    {
                        assert(entry.css@.skip(c as int)[0] == entry.css@[c as int]);
                        let base = suffix_after_last(entry.css[c].as_str(), '/');
                        assets.insert(base.clone(), base);
                        assert(entry.css@.skip(c as int).skip(1) =~= entry.css@.skip(
                            c as int + 1,
                        ));
                        c = c + 1;
                    }
                    assert(entry.css@.skip(cn as int) =~= Seq::<String>::empty());
                }
            },
        }
        assert(entries@.skip(i as int).skip(1) =~= entries@.skip(i as int + 1));
        i = i + 1;
    }
    assert(entries@.skip(n as int) =~= Seq::<ManifestEntry>::empty());
    assets
}

/// The snippet linking one css file.
pub open spec fn css_link(v: Seq<char>) -> Seq<char> {
    "<link rel=\"stylesheet\" href=\"/public/"@ + v + "\">"@
}

/// The snippet loading one js file.
pub open spec fn js_script(v: Seq<char>) -> Seq<char> {
    "<script src=\"/public/"@ + v + "\" defer></script>"@
}

/// The snippet an asset name contributes: judged by the suffix after the
/// name's last dot, with names of other kinds contributing nothing.
pub open spec fn spec_asset_snippet(name: Seq<char>, file: Seq<char>) -> Seq<char> {
    if after_last(name, '.') == "css"@ {
        css_link(file)
    } else if after_last(name, '.') == "js"@ {
        js_script(file)
    } else {
        Seq::<char>::empty()
    }
}

/// The snippet for every file of the table, in table order.
pub open spec fn spec_all_assets(m: Seq<(Seq<char>, Seq<char>)>) -> Seq<char>
    decreases m.len(),
{
    if m.len() == 0 {
        Seq::<char>::empty()
    } else {
        spec_asset_snippet(m[0].1, m[0].1) + spec_all_assets(m.skip(1))
    }
}

/// The snippet for a requested list of names: each name found in the table
/// contributes the snippet of its mapped file, judged by the requested
/// name's suffix; names not in the table contribute nothing.
pub open spec fn spec_picked_assets(m: Seq<(Seq<char>, Seq<char>)>, names: Seq<String>) -> Seq<
    char,
>
    decreases names.len(),
{
    if names.len() == 0 {
        Seq::<char>::empty()
    } else {
        (match spec_map_get(m, names[0]@) {
            Some(v) => spec_asset_snippet(names[0]@, v),
            None => Seq::<char>::empty(),
        }) + spec_picked_assets(m, names.skip(1))
    }
}

/// Builds the HTML snippet for a page's assets: for a requested list of
/// names, the snippets of the names found in the table; with no list, the
/// snippets of every file in the table.
pub fn get_assets_string(assets: Option<Vec<String>>, manifest: &AssetMap) -> (r: String)
    ensures
        ({
            match assets {
                None => r@ == spec_all_assets(manifest@),
                Some(names) => r@ == spec_picked_assets(manifest@, names@),
            }
        }),
{
    let mut assets_string = String::new();
    match assets {
        None => {
            let n = manifest.len();
            let mut i: usize = 0;
            assert(manifest@.skip(0) =~= manifest@);
            while i < n
                invariant
                    i <= n,
                    n == manifest@.len(),
                    spec_all_assets(manifest@) =~= assets_string@ + spec_all_assets(
                        manifest@.skip(i as int),
                    ),
                decreases n - i,
            {
                assert(manifest@.skip(i as int)[0] == manifest@[i as int]);
                let entry = manifest.entry_at(i);
                let file = entry.1;
                let ext = suffix_after_last(file.as_str(), '.');
                if str_eq(ext.as_str(), "css") {
                    assets_string.append("<link rel=\"stylesheet\" href=\"/public/");
                    assets_string.append(file.as_str());
                    assets_string.append("\">");
                } else if str_eq(ext.as_str(), "js") {
                    assets_string.append("<script src=\"/public/");
                    assets_string.append(file.as_str());
                    assets_string.append("\" defer></script>");
                }
                assert(manifest@.skip(i as int).skip(1) =~= manifest@.skip(i as int + 1));
                i = i + 1;
            }
            assert(manifest@.skip(n as int) =~= Seq::<(Seq<char>, Seq<char>)>::empty());
        },
        Some(names) => {
            let n = names.len();
            let mut i: usize = 0;
            assert(names@.skip(0) =~= names@);
            while i < n
                invariant
                    i <= n,
                    n == names@.len(),
                    spec_picked_assets(manifest@, names@) =~= assets_string@
                        + spec_picked_assets(manifest@, names@.skip(i as int)),
                decreases n - i,
            {
                assert(names@.skip(i as int)[0] == names@[i as int]);
                let name = &names[i];
                let ext = suffix_after_last(name.as_str(), '.');
                let found = manifest.get(name.as_str());
                match found {
                    Some(file) => {
                        if str_eq(ext.as_str(), "css") {
                            assets_string.append("<link rel=\"stylesheet\" href=\"/public/");
                            assets_string.append(file.as_str());
                            assets_string.append("\">");
                        } else if str_eq(ext.as_str(), "js") {
                            assets_string.append("<script src=\"/public/");
                            assets_string.append(file.as_str());
                            assets_string.append("\" defer></script>");
                        }
                    },
                    None => {},
                }
                assert(names@.skip(i as int).skip(1) =~= names@.skip(i as int + 1));
                i = i + 1;
            }
            assert(names@.skip(n as int) =~= Seq::<String>::empty());
        },
    }
    assets_string
}

/// The fixed snippet used while the css bundler, not the js bundler, owns
/// the assets.
pub fn get_tailwind_asset_string() -> (r: String)
    ensures
        r@ == "<link rel=\"stylesheet\" href=\"/styles.css\">"@ + "<script src=\"/scripts.js\" defer></script>"@,
{
    let mut assets_string = String::new();
    assets_string.append("<link rel=\"stylesheet\" href=\"/styles.css\">");
    assets_string.append("<script src=\"/scripts.js\" defer></script>");
    assets_string
}

} // verus!
