//! Per-project configuration: a table keyed by event name, each entry
//! naming a melody reference, a volume and an optional matcher pattern.
//!
//! The configuration file lives at `.hassha/config.toml` under a project
//! directory; the resolver walks upward from a starting directory and takes
//! the nearest file. As everywhere in this crate, which paths exist is
//! handed in as a plain list; the caller reads and parses the file itself
//! and hands the table in as plain values.

use vstd::prelude::*;

use crate::strutil::{find_last_char, last_index_of, seq_contains, str_eq, str_views,
    vec_contains_str};

verus! {

/// Volume of a playback, in thousandths of full amplitude: 0 is silence,
/// `FULL_VOLUME` is full amplitude.
pub const FULL_VOLUME: u32 = 1000;

/// Configuration for one hook event: the melody to play (a registry id, a
/// URL or a local path), the volume in thousandths of full amplitude, and
/// an optional matcher pattern.
pub struct HookConfig {
    pub melody: String,
    pub volume: u32,
    pub matcher: Option<String>,
}

/// The mathematical image of a `HookConfig`.
pub struct HookConfigView {
    pub melody: Seq<char>,
    pub volume: u32,
    pub matcher: Option<Seq<char>>,
}

impl View for HookConfig {
    type V = HookConfigView;

    open spec fn view(&self) -> HookConfigView {
        HookConfigView {
            melody: self.melody@,
            volume: self.volume,
            matcher: match self.matcher {
                Some(ref m) => Some(m@),
                None => None,
            },
        }
    }
}

/// The whole configuration: hook configurations keyed by event name. Keys
/// are unique as parsed from a configuration file, and lookup takes the
/// first match.
pub struct HasshaConfig {
    pub hooks: Vec<(String, HookConfig)>,
}

impl View for HasshaConfig {
    type V = Seq<(Seq<char>, HookConfigView)>;

    open spec fn view(&self) -> Seq<(Seq<char>, HookConfigView)> {
        self.hooks@.map_values(|p: (String, HookConfig)| (p.0@, p.1@))
    }
}

impl Default for HasshaConfig {
    /// The default configuration has no hooks.
    fn default() -> (r: HasshaConfig)
        ensures
            r@.len() == 0,
    {
        HasshaConfig { hooks: Vec::new() }
    }
}

/// The first hook configuration stored under `event`, if any.
pub open spec fn spec_hook_lookup(
    hooks: Seq<(Seq<char>, HookConfigView)>,
    event: Seq<char>,
) -> Option<HookConfigView>
    decreases hooks.len(),
{
    if hooks.len() == 0 {
        None
    } else if hooks[0].0 == event {
        Some(hooks[0].1)
    } else {
        spec_hook_lookup(hooks.skip(1), event)
    }
}

/// The hook configuration for `event`, if the table has one.
pub fn get_hook_config<'a>(config: &'a HasshaConfig, event: &str) -> (r: Option<&'a HookConfig>)
    ensures
        match r {
            Some(hc) => spec_hook_lookup(config@, event@) == Some(hc@),
            None => spec_hook_lookup(config@, event@) is None,
        },
{
    let n = config.hooks.len();
    let mut i: usize = 0;
    proof {
        assert(config@.skip(0) =~= config@);
    }
    while i < n
        invariant
            n == config.hooks@.len(),
            i <= n,
            spec_hook_lookup(config@, event@) == spec_hook_lookup(config@.skip(i as int), event@),
        decreases n - i,
    {
        proof {
            assert(config@.skip(i as int)[0] == config@[i as int]);
        }
        if str_eq(config.hooks[i].0.as_str(), event) {
            return Some(&config.hooks[i].1);
        }
        i += 1;
        proof {
            assert(config@.skip(i - 1).skip(1) =~= config@.skip(i as int));
        }
    }
    None
}

/// The parent directory of `dir`, or nothing for the root `/` and for the
/// empty (relative root) directory: everything before the last `/`, with
/// `/x` having parent `/` and a name without `/` having the empty parent.
pub open spec fn spec_parent(dir: Seq<char>) -> Option<Seq<char>> {
    if dir.len() == 0 || (dir.len() == 1 && dir[0] == '/') {
        None
    } else {
        let i = last_index_of(dir, '/');
        if 1 <= i < dir.len() {
            Some(dir.take(i))
        } else if i == 0 && dir.len() >= 2 {
            Some(seq!['/'])
        } else {
            Some(Seq::empty())
        }
    }
}

/// The configuration file candidate under `dir`: `dir` joined with the
/// fixed relative path `.hassha/config.toml`.
pub open spec fn config_candidate(dir: Seq<char>) -> Seq<char> {
    if dir.len() == 0 {
        ".hassha/config.toml"@
    } else if dir[dir.len() - 1] == '/' {
        dir + ".hassha/config.toml"@
    } else {
        dir + "/"@ + ".hassha/config.toml"@
    }
}

/// The nearest configuration file on the way up from `dir`: its own
/// candidate when that is among `files`, else the parent's, else nothing
/// once the root is passed.
pub open spec fn spec_find_config(dir: Seq<char>, files: Seq<Seq<char>>) -> Option<Seq<char>>
    decreases dir.len(),
{
    if seq_contains(files, config_candidate(dir)) {
        Some(config_candidate(dir))
    } else {
        match spec_parent(dir) {
            Some(p) => spec_find_config(p, files),
            None => None,
        }
    }
}

/// `dir` joined with the fixed relative configuration file path.
fn join_config_path(dir: &str) -> (r: String)
    ensures
        r@ == config_candidate(dir@),
{
    let n = dir.unicode_len();
    if n == 0 {
        String::from_str(".hassha/config.toml")
    } else if dir.get_char(n - 1) == '/' {
        let mut r = dir.to_owned();
        r.append(".hassha/config.toml");
        r
    } else {
        let mut r = dir.to_owned();
        r.append("/");
        r.append(".hassha/config.toml");
        proof {
            assert(r@ =~= dir@ + "/"@ + ".hassha/config.toml"@);
        }
        r
    }
}

/// Walk upward from `start_dir` toward the root and return the first
/// configuration file found among `existing`, or nothing when no ancestor
/// has one. Absence is a normal state, not an error.
pub fn find_config_file(start_dir: &str, existing: &Vec<String>) -> (r: Option<String>)
    ensures
        match r {
            Some(p) => spec_find_config(start_dir@, str_views(existing@)) == Some(p@),
            None => spec_find_config(start_dir@, str_views(existing@)) is None,
        },
{
    let mut current: String = start_dir.to_owned();
    loop
        invariant
            spec_find_config(start_dir@, str_views(existing@)) == spec_find_config(
                current@,
                str_views(existing@),
            ),
        decreases current@.len(),
    {
        let candidate = join_config_path(current.as_str());
        if vec_contains_str(existing, candidate.as_str()) {
            return Some(candidate);
        }
        let n = current.unicode_len();
        if n == 0 || (n == 1 && current.as_str().get_char(0) == '/') {
            return None;
        }
        match find_last_char(current.as_str(), '/') {
            Some(i) => {
                proof {
                    crate::strutil::lemma_last_index_of(current@, '/');
                }
                if i >= 1 {
                    assert(spec_parent(current@) == Some(current@.take(i as int)));
                    let parent = String::from_str(current.as_str().substring_char(0, i));
                    current = parent;
                } else {
                    assert(current@[0] == '/' && current@.len() >= 2);
                    assert(spec_parent(current@) == Some(seq!['/']));
                    let parent = String::from_str("/");
                    proof {
                        reveal_strlit("/");
                        assert(parent@ =~= seq!['/']);
                    }
                    current = parent;
                }
            },
            None => {
                assert(spec_parent(current@) == Some(Seq::<char>::empty()));
                current = String::new();
            },
        }
    }
}

} // verus!
