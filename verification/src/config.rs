//! User settings kept by the application: the badge groups that can be put on
//! invoices, and whether the vector store is used.
use vstd::prelude::*;

use crate::text::{chars_eq_str, str_eq, string_from_chars, trim, trim_str};
use crate::xlsx::string_views;

verus! {

/// A group of badges: its name and the values one can pick.
pub struct BadgeGroupConfig {
    pub name: String,
    pub options: Vec<String>,
}

/// The badge groups of the application.
pub struct BadgeConfig {
    pub groups: Vec<BadgeGroupConfig>,
}

impl Default for BadgeConfig {
    fn default() -> (r: Self)
        ensures
            r.groups@.len() == 0,
    {
        BadgeConfig { groups: Vec::new() }
    }
}

pub open spec fn group_view(g: BadgeGroupConfig) -> (Seq<char>, Seq<Seq<char>>) {
    (g.name@, string_views(g.options@))
}

pub open spec fn groups_view(v: Seq<BadgeGroupConfig>) -> Seq<(Seq<char>, Seq<Seq<char>>)> {
    v.map_values(|g: BadgeGroupConfig| group_view(g))
}

/// Options trimmed, blank ones dropped, each kept once where it first
/// appears.
pub open spec fn clean_options(opts: Seq<Seq<char>>) -> Seq<Seq<char>>
    decreases opts.len(),
{
    if opts.len() == 0 {
        Seq::empty()
    } else {
        let prev = clean_options(opts.drop_last());
        let v = trim(opts.last());
        if v.len() == 0 || prev.contains(v) {
            prev
        } else {
            prev.push(v)
        }
    }
}

pub open spec fn group_names(gs: Seq<(Seq<char>, Seq<Seq<char>>)>) -> Seq<Seq<char>> {
    gs.map_values(|g: (Seq<char>, Seq<Seq<char>>)| g.0)
}

/// Group names trimmed, groups with a blank name dropped, a name kept once
/// (its first group wins), and each group's options cleaned.
pub open spec fn sanitize_spec(gs: Seq<(Seq<char>, Seq<Seq<char>>)>) -> Seq<
    (Seq<char>, Seq<Seq<char>>),
>
    decreases gs.len(),
{
    if gs.len() == 0 {
        Seq::empty()
    } else {
        let prev = sanitize_spec(gs.drop_last());
        let name = trim(gs.last().0);
        if name.len() == 0 || group_names(prev).contains(name) {
            prev
        } else {
            prev.push((name, clean_options(gs.last().1)))
        }
    }
}

fn contains_text(v: &Vec<String>, s: &Vec<char>) -> (b: bool)
    ensures
        b == string_views(v@).contains(s@),
{
    let mut i: usize = 0;
    while i < v.len()
        invariant
            i <= v.len(),
            forall|j: int| 0 <= j < i ==> v@[j]@ != s@,
        decreases v.len() - i,
    {
        if chars_eq_str(s, v[i].as_str()) {
            assert(string_views(v@)[i as int] == s@);
            return true;
        }
        i += 1;
    }
    proof {
        if string_views(v@).contains(s@) {
            let j = choose|j: int| 0 <= j < string_views(v@).len() && string_views(v@)[j] == s@;
            assert(v@[j]@ == s@);
        }
    }
    false
}

fn sanitize_options(options: &Vec<String>) -> (r: Vec<String>)
    ensures
        string_views(r@) == clean_options(string_views(options@)),
{
    let mut r: Vec<String> = Vec::new();
    let mut i: usize = 0;
    while i < options.len()
        invariant
            i <= options.len(),
            string_views(r@) == clean_options(string_views(options@).take(i as int)),
        decreases options.len() - i,
    {
        let ghost t = string_views(options@).take(i as int + 1);
        assert(t.drop_last() =~= string_views(options@).take(i as int));
        assert(t.last() == options@[i as int]@);
        let v = trim_str(options[i].as_str());
        if v.len() > 0 && !contains_text(&r, &v) {
            let ghost before = r@;
            r.push(string_from_chars(v.as_slice()));
            assert(string_views(r@) =~= string_views(before).push(v@));
        }
        i += 1;
    }
    assert(string_views(options@).take(options.len() as int) =~= string_views(options@));
    r
}

/// Cleans badge settings: names and options trimmed, blank ones dropped,
/// repeated group names and repeated options within a group dropped.
pub fn sanitize_badge_config(config: BadgeConfig) -> (r: BadgeConfig)
    ensures
        groups_view(r.groups@) == sanitize_spec(groups_view(config.groups@)),
{
    let mut groups: Vec<BadgeGroupConfig> = Vec::new();
    let mut names: Vec<String> = Vec::new();
    let mut i: usize = 0;
    while i < config.groups.len()
        invariant
            i <= config.groups.len(),
            groups_view(groups@) == sanitize_spec(groups_view(config.groups@).take(i as int)),
            string_views(names@) == group_names(groups_view(groups@)),
        decreases config.groups.len() - i,
    {
        let g = &config.groups[i];
        let ghost t = groups_view(config.groups@).take(i as int + 1);
        assert(t.drop_last() =~= groups_view(config.groups@).take(i as int));
        assert(t.last() == group_view(config.groups@[i as int]));
        let name = trim_str(g.name.as_str());
        if name.len() > 0 {
            let options = sanitize_options(&g.options);
            if !contains_text(&names, &name) {
                let ghost before = groups@;
                let ghost nbefore = names@;
                groups.push(
                    BadgeGroupConfig { name: string_from_chars(name.as_slice()), options },
                );
                names.push(string_from_chars(name.as_slice()));
                assert(groups_view(groups@) =~= groups_view(before).push(
                    (name@, clean_options(string_views(g.options@))),
                ));
                assert(string_views(names@) =~= string_views(nbefore).push(name@));
                assert(group_names(groups_view(groups@)) =~= group_names(groups_view(before)).push(
                    name@,
                ));
            }
        }
        i += 1;
    }
    assert(groups_view(config.groups@).take(config.groups.len() as int) =~= groups_view(
        config.groups@,
    ));
    BadgeConfig { groups }
}

/// A list of options is clean: every option trimmed and non-blank, none
/// repeated.
pub open spec fn options_clean(opts: Seq<Seq<char>>) -> bool {
    &&& opts.no_duplicates()
    &&& forall|k: int| 0 <= k < opts.len() ==> #[trigger] trim(opts[k]) == opts[k] && opts[k].len() > 0
}

pub open spec fn groups_clean(gs: Seq<(Seq<char>, Seq<Seq<char>>)>) -> bool {
    &&& group_names(gs).no_duplicates()
    &&& forall|k: int|
        0 <= k < gs.len() ==> #[trigger] trim(gs[k].0) == gs[k].0 && gs[k].0.len() > 0
            && options_clean(gs[k].1)
}

proof fn lemma_clean_options_clean(opts: Seq<Seq<char>>)
    ensures
        options_clean(clean_options(opts)),
    decreases opts.len(),
{
    if opts.len() > 0 {
        lemma_clean_options_clean(opts.drop_last());
        let prev = clean_options(opts.drop_last());
        let v = trim(opts.last());
        crate::text::lemma_trim_idempotent(opts.last());
        if !(v.len() == 0 || prev.contains(v)) {
            let r = prev.push(v);
            assert forall|a: int, b: int| 0 <= a < r.len() && 0 <= b < r.len() && a != b implies r[a]
                != r[b] by {
                if a == prev.len() {
                    assert(r[b] == prev[b]);
                } else if b == prev.len() {
                    assert(r[a] == prev[a]);
                }
            }
            assert forall|k: int| 0 <= k < r.len() implies #[trigger] trim(r[k]) == r[k] && r[k].len()
                > 0 by {
                if k < prev.len() {
                    assert(r[k] == prev[k]);
                }
            }
        }
    }
}

proof fn lemma_clean_options_fixed(opts: Seq<Seq<char>>)
    requires
        options_clean(opts),
    ensures
        clean_options(opts) == opts,
    decreases opts.len(),
{
    if opts.len() > 0 {
        let init = opts.drop_last();
        assert forall|a: int, b: int| 0 <= a < init.len() && 0 <= b < init.len() && a != b implies init[a]
            != init[b] by {
            assert(init[a] == opts[a] && init[b] == opts[b]);
        }
        assert forall|k: int| 0 <= k < init.len() implies #[trigger] trim(init[k]) == init[k]
            && init[k].len() > 0 by {
            assert(init[k] == opts[k]);
        }
        lemma_clean_options_fixed(init);
        let last = opts.last();
        assert(trim(opts[opts.len() - 1]) == opts[opts.len() - 1]);
        if init.contains(last) {
            let j = choose|j: int| 0 <= j < init.len() && init[j] == last;
            assert(opts[j] == opts[opts.len() - 1]);
        }
        assert(init.push(last) =~= opts);
    }
}

proof fn lemma_sanitize_clean(gs: Seq<(Seq<char>, Seq<Seq<char>>)>)
    ensures
        groups_clean(sanitize_spec(gs)),
    decreases gs.len(),
{
    if gs.len() > 0 {
        lemma_sanitize_clean(gs.drop_last());
        let prev = sanitize_spec(gs.drop_last());
        let name = trim(gs.last().0);
        crate::text::lemma_trim_idempotent(gs.last().0);
        if !(name.len() == 0 || group_names(prev).contains(name)) {
            let g = (name, clean_options(gs.last().1));
            let r = prev.push(g);
            lemma_clean_options_clean(gs.last().1);
            assert(group_names(r) =~= group_names(prev).push(name));
            let n = group_names(r);
            assert forall|a: int, b: int| 0 <= a < n.len() && 0 <= b < n.len() && a != b implies n[a]
                != n[b] by {
                if a == prev.len() {
                    assert(n[b] == group_names(prev)[b]);
                } else if b == prev.len() {
                    assert(n[a] == group_names(prev)[a]);
                } else {
                    assert(n[a] == group_names(prev)[a] && n[b] == group_names(prev)[b]);
                }
            }
            assert forall|k: int| 0 <= k < r.len() implies #[trigger] trim(r[k].0) == r[k].0
                && r[k].0.len() > 0 && options_clean(r[k].1) by {
                if k < prev.len() {
                    assert(r[k] == prev[k]);
                }
            }
        }
    }
}

proof fn lemma_sanitize_fixed(gs: Seq<(Seq<char>, Seq<Seq<char>>)>)
    requires
        groups_clean(gs),
    ensures
        sanitize_spec(gs) == gs,
    decreases gs.len(),
{
    if gs.len() > 0 {
        let init = gs.drop_last();
        assert(group_names(init) =~= group_names(gs).drop_last());
        let ni = group_names(init);
        let ng = group_names(gs);
        assert forall|a: int, b: int| 0 <= a < ni.len() && 0 <= b < ni.len() && a != b implies ni[a]
            != ni[b] by {
            assert(ni[a] == ng[a] && ni[b] == ng[b]);
        }
        assert forall|k: int| 0 <= k < init.len() implies #[trigger] trim(init[k].0) == init[k].0
            && init[k].0.len() > 0 && options_clean(init[k].1) by {
            assert(init[k] == gs[k]);
        }
        lemma_sanitize_fixed(init);
        let last = gs.last();
        assert(trim(gs[gs.len() - 1].0) == gs[gs.len() - 1].0);
        assert(options_clean(gs[gs.len() - 1].1));
        lemma_clean_options_fixed(last.1);
        if ni.contains(last.0) {
            let j = choose|j: int| 0 <= j < ni.len() && ni[j] == last.0;
            assert(ng[j] == ng[gs.len() - 1]);
        }
        assert(init.push(last) =~= gs);
    }
}

/// Sanitizing badge settings twice gives what sanitizing once gave: the
/// result has non-blank trimmed names and options, none repeated.
pub proof fn law_sanitize_idempotent(gs: Seq<(Seq<char>, Seq<Seq<char>>)>)
    ensures
        groups_clean(sanitize_spec(gs)),
        sanitize_spec(sanitize_spec(gs)) == sanitize_spec(gs),
{
    lemma_sanitize_clean(gs);
    lemma_sanitize_fixed(sanitize_spec(gs));
}

/// Whether the local vector store is used.
pub struct ChromaConfig {
    pub enabled: bool,
}

impl Default for ChromaConfig {
    /// The vector store is used unless switched off.
    fn default() -> (r: Self)
        ensures
            r.enabled,
    {
        ChromaConfig { enabled: true }
    }
}

// ---------------------------------------------------------------------------
// Theme and log level
// ---------------------------------------------------------------------------

/// Only the light and the dark theme are stored.
pub fn theme_check(theme: &str) -> (r: Result<(), String>)
    ensures
        (theme@ == "light"@ || theme@ == "dark"@) ==> r is Ok,
        !(theme@ == "light"@ || theme@ == "dark"@) ==> (r matches Err(m) && m@
            == "theme must be 'light' or 'dark'"@),
{
    if str_eq(theme, "light") || str_eq(theme, "dark") {
        Ok(())
    } else {
        Err("theme must be 'light' or 'dark'".to_owned())
    }
}

/// The theme in use: the stored one, else light.
pub fn theme_or_default(stored: Option<String>) -> (r: String)
    ensures
        r@ == match stored {
            Some(t) => t@,
            None => "light"@,
        },
{
    match stored {
        Some(t) => t,
        None => "light".to_owned(),
    }
}

pub open spec fn valid_log_level(level: Seq<char>) -> bool {
    level == "trace"@ || level == "debug"@ || level == "info"@ || level == "warn"@ || level == "error"@
}

/// The log levels that can be set; anything else is refused with the list
/// of valid levels.
pub fn log_level_check(level: &str) -> (r: Result<(), String>)
    ensures
        valid_log_level(level@) ==> r is Ok,
        !valid_log_level(level@) ==> (r matches Err(m) && m@ == "无效的日志级别: '"@ + level@
            + "'，可选值: trace, debug, info, warn, error"@),
{
    if str_eq(level, "trace") || str_eq(level, "debug") || str_eq(level, "info")
        || str_eq(level, "warn") || str_eq(level, "error") {
        Ok(())
    } else {
        let mut out: Vec<char> = Vec::new();
        crate::text::push_str(&mut out, "无效的日志级别: '");
        crate::text::push_str(&mut out, level);
        crate::text::push_str(&mut out, "'，可选值: trace, debug, info, warn, error");
        Err(string_from_chars(out.as_slice()))
    }
}

/// The log level in use: the stored one, else `info`.
pub fn log_level_or_default(stored: Option<String>) -> (r: String)
    ensures
        r@ == match stored {
            Some(l) => l@,
            None => "info"@,
        },
{
    match stored {
        Some(l) => l,
        None => "info".to_owned(),
    }
}

} // verus!
