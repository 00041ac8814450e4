//! The configuration of a run: which optional steps are asked, the commit
//! kinds and scopes offered, the summary length budget and the colours.

use vstd::prelude::*;

verus! {

/// A kind of commit that can be chosen: its name, its emoji and what it is
/// for.
#[derive(Debug, Clone)]
pub struct CommitKind {
    pub name: String,
    pub emoji: String,
    pub description: String,
}

/// A kind of commit made of its three texts.
pub fn ctype(name: &str, emoji: &str, description: &str) -> (r: CommitKind)
    ensures
        r.name@ == name@,
        r.emoji@ == emoji@,
        r.description@ == description@,
{
    CommitKind {
        name: String::from_str(name),
        emoji: String::from_str(emoji),
        description: String::from_str(description),
    }
}

/// Whether a kind has these name, emoji and description.
pub open spec fn kind_is(
    kind: CommitKind,
    name: Seq<char>,
    emoji: Seq<char>,
    description: Seq<char>,
) -> bool {
    kind.name@ == name && kind.emoji@ == emoji && kind.description@ == description
}

/// Colours by name: each entry pairs a key with a colour written as a name
/// or as `#rrggbb`. A later entry for a key overrides an earlier one.
#[derive(Debug, Clone)]
pub struct Theme {
    pub entries: Vec<(String, String)>,
}

/// The colour that the entries give a key: that of the last entry for it.
pub open spec fn theme_lookup(entries: Seq<(String, String)>, key: Seq<char>) -> Option<
    Seq<char>,
>
    decreases entries.len(),
{
    if entries.len() == 0 {
        None
    } else if entries.last().0@ == key {
        Some(entries.last().1@)
    } else {
        theme_lookup(entries.drop_last(), key)
    }
}

fn entry(key: &str, colour: &str) -> (r: (String, String))
    ensures
        r.0@ == key@,
        r.1@ == colour@,
{
    (String::from_str(key), String::from_str(colour))
}

impl Theme {
    /// The colours used where a configuration names none.
    pub fn default_theme() -> (r: Theme)
        ensures
            r.entries@.len() == 30,
    {
        let mut entries: Vec<(String, String)> = Vec::new();
        entries.push(entry("primary", "#dcff3f"));
        entries.push(entry("primary-fg", "#000000"));
        entries.push(entry("logo:fg:1", "blue"));
        entries.push(entry("logo:fg:2", "lightmagenta"));
        entries.push(entry("header:type", "yellow"));
        entries.push(entry("header:scope", "blue"));
        entries.push(entry("grid:selected", "green"));
        entries.push(entry("grid:hovered", "blue"));
        entries.push(entry("switch:on", "#00c980"));
        entries.push(entry("switch:off", "black"));
        entries.push(entry("switch:switch", "white"));
        entries.push(entry("yes", "#00c980"));
        entries.push(entry("no", "red"));
        entries.push(entry("textarea:bg", "#050f21"));
        entries.push(entry("textarea:fg", "#ffffff"));
        entries.push(entry("textarea:sel", "#232a38"));
        entries.push(entry("scope:bg", "#125acc"));
        entries.push(entry("scope:fg", "#ffffff"));
        entries.push(entry("scope:sec", "#000000"));
        entries.push(entry("summary:bg", "#6a2eab"));
        entries.push(entry("summary:fg", "#ffffff"));
        entries.push(entry("summary:sec", "#000000"));
        entries.push(entry("body:bg", "#f24e50"));
        entries.push(entry("body:fg", "#ffffff"));
        entries.push(entry("body:sec", "#000000"));
        entries.push(entry("footer:bg", "#db279f"));
        entries.push(entry("footer:fg", "#ffffff"));
        entries.push(entry("footer:sec", "#000000"));
        entries.push(entry("commit:fg", "#6a4ac3"));
        entries.push(entry("kind:fg", "#8cc265"));
        Theme { entries }
    }

    /// The colour given to `key`, if any.
    pub fn get(&self, key: &str) -> (r: Option<String>)
        ensures
            match theme_lookup(self.entries@, key@) {
                Some(c) => r matches Some(s) && s@ == c,
                None => r is None,
            },
    {
        let mut i = self.entries.len();
        assert(self.entries@.take(i as int) =~= self.entries@);
        while i > 0
            invariant
                i <= self.entries@.len(),
                theme_lookup(self.entries@, key@) == theme_lookup(
                    self.entries@.take(i as int),
                    key@,
                ),
            decreases i,
        {
            let ghost part = self.entries@.take(i as int);
            assert(part.drop_last() =~= self.entries@.take(i - 1));
            assert(part.last() == self.entries@[i - 1]);
            if crate::text::same_text(self.entries[i - 1].0.as_str(), key) {
                return Some(self.entries[i - 1].1.clone());
            }
            i = i - 1;
        }
        None
    }

    /// These colours with those of `other` laid over them: a key that
    /// `other` gives takes its colour from `other`.
    pub fn merge(self, other: Theme) -> (r: Theme)
        ensures
            r.entries@ == self.entries@ + other.entries@,
            forall|key: Seq<char>|
                #[trigger] theme_lookup(r.entries@, key) == match theme_lookup(
                    other.entries@,
                    key,
                ) {
                    Some(c) => Some(c),
                    None => theme_lookup(self.entries@, key),
                },
    {
        let mut entries = self.entries;
        let mut more = other.entries;
        let ghost a = entries@;
        let ghost b = more@;
        entries.append(&mut more);
        proof {
            assert forall|key: Seq<char>|
                #[trigger] theme_lookup(a + b, key) == match theme_lookup(b, key) {
                    Some(c) => Some(c),
                    None => theme_lookup(a, key),
                } by {
                lemma_lookup_concat(a, b, key);
            }
        }
        Theme { entries }
    }
}

proof fn lemma_lookup_concat(a: Seq<(String, String)>, b: Seq<(String, String)>, key: Seq<char>)
    ensures
        theme_lookup(a + b, key) == match theme_lookup(b, key) {
            Some(c) => Some(c),
            None => theme_lookup(a, key),
        },
    decreases b.len(),
{
    if b.len() == 0 {
        assert(a + b =~= a);
    } else {
        assert((a + b).drop_last() =~= a + b.drop_last());
        assert((a + b).last() == b.last());
        lemma_lookup_concat(a, b.drop_last(), key);
    }
}

impl Default for Theme {
    fn default() -> (r: Theme)
        ensures
            r.entries@.len() == 30,
    {
        Theme::default_theme()
    }
}

/// The configuration of a run.
#[derive(Debug, Clone)]
pub struct CocoConfig {
    pub theme: Theme,
    pub use_emoji: bool,
    pub ask_scope: bool,
    pub ask_body: bool,
    pub ask_footer: bool,
    pub ask_breaking_change: bool,
    pub max_summary_length: usize,
    pub scopes: Vec<String>,
    pub types: Vec<CommitKind>,
}

/// A configuration file's settings: each one that the file leaves out is
/// `None`.
#[derive(Debug, Clone)]
pub struct PartialConfig {
    pub theme: Option<Theme>,
    pub use_emoji: Option<bool>,
    pub ask_scope: Option<bool>,
    pub ask_body: Option<bool>,
    pub ask_footer: Option<bool>,
    pub ask_breaking_change: Option<bool>,
    pub max_summary_length: Option<usize>,
    pub scopes: Option<Vec<String>>,
    pub types: Option<Vec<CommitKind>>,
}

/// The setting of a file where it has one, else the one before.
pub open spec fn pick<T>(setting: Option<T>, before: T) -> T {
    match setting {
        Some(v) => v,
        None => before,
    }
}

/// The colour entries that a file adds.
pub open spec fn theme_layer(file: PartialConfig) -> Seq<(String, String)> {
    match file.theme {
        Some(t) => t.entries@,
        None => Seq::empty(),
    }
}

/// A file's settings, or no setting at all where there is no file.
pub open spec fn layer(file: Option<PartialConfig>) -> PartialConfig {
    match file {
        Some(f) => f,
        None => PartialConfig {
            theme: None,
            use_emoji: None,
            ask_scope: None,
            ask_body: None,
            ask_footer: None,
            ask_breaking_change: None,
            max_summary_length: None,
            scopes: None,
            types: None,
        },
    }
}

/// `after` is `before` with the settings of `file` laid over it.
pub open spec fn overlaid(before: CocoConfig, file: PartialConfig, after: CocoConfig) -> bool {
    &&& after.theme.entries@ == before.theme.entries@ + theme_layer(file)
    &&& after.use_emoji == pick(file.use_emoji, before.use_emoji)
    &&& after.ask_scope == pick(file.ask_scope, before.ask_scope)
    &&& after.ask_body == pick(file.ask_body, before.ask_body)
    &&& after.ask_footer == pick(file.ask_footer, before.ask_footer)
    &&& after.ask_breaking_change == pick(file.ask_breaking_change, before.ask_breaking_change)
    &&& after.max_summary_length == pick(file.max_summary_length, before.max_summary_length)
    &&& after.scopes@ == pick(file.scopes, before.scopes)@
    &&& after.types@ == pick(file.types, before.types)@
}

impl Default for CocoConfig {
    fn default() -> (r: CocoConfig)
        ensures
            r.use_emoji,
            r.ask_scope,
            r.ask_body,
            r.ask_footer,
            r.ask_breaking_change,
            r.max_summary_length == 72,
            r.scopes@.len() == 0,
            r.types@.len() == 13,
    {
        CocoConfig::default_config()
    }
}

impl CocoConfig {
    /// The configuration used where no file says otherwise: every optional
    /// step asked, emoji on, a summary budget of 72, no fixed scopes and the
    /// usual commit kinds.
    pub fn default_config() -> (r: CocoConfig)
        ensures
            r.use_emoji,
            r.ask_scope,
            r.ask_body,
            r.ask_footer,
            r.ask_breaking_change,
            r.max_summary_length == 72,
            r.scopes@.len() == 0,
            r.types@.len() == 13,
            kind_is(r.types@[0], "feat"@, "✨"@, "Introduces a new feature"@),
            kind_is(r.types@[1], "fix"@, "🚑"@, "Fixes a bug"@),
            kind_is(
                r.types@[2],
                "chore"@,
                "🧹"@,
                "Other changes that don't modify src or test files"@,
            ),
            kind_is(r.types@[3], "docs"@, "📝"@, "Documentation only changes"@),
            kind_is(
                r.types@[4],
                "style"@,
                "💄"@,
                "Code cosmetic changes (formatting, indentation, etc.)"@,
            ),
            kind_is(
                r.types@[5],
                "refactor"@,
                "🔨"@,
                "A change that refactors code without adding or removing features"@,
            ),
            kind_is(r.types@[6], "perf"@, "🐎"@, "A code change that improves performance"@),
            kind_is(r.types@[7], "test"@, "🧪"@, "A change that only adds or updates tests"@),
            kind_is(r.types@[8], "ci"@, "🔄"@, "Changes to our CI configuration files and scripts"@),
            kind_is(r.types@[9], "revert"@, "🔙"@, "Reverts a previous commit"@),
            kind_is(r.types@[10], "release"@, "🔖"@, "Releases a new version"@),
            kind_is(r.types@[11], "wip"@, "🚧"@, "Work in progress"@),
            kind_is(
                r.types@[12],
                "i18n"@,
                "🌐"@,
                "A change that updates or adds translations (internationalization)"@,
            ),
    {
        let mut types: Vec<CommitKind> = Vec::new();
        types.push(ctype("feat", "✨", "Introduces a new feature"));
        types.push(ctype("fix", "🚑", "Fixes a bug"));
        types.push(ctype("chore", "🧹", "Other changes that don't modify src or test files"));
        types.push(ctype("docs", "📝", "Documentation only changes"));
        types.push(ctype("style", "💄", "Code cosmetic changes (formatting, indentation, etc.)"));
        types.push(
            ctype(
                "refactor",
                "🔨",
                "A change that refactors code without adding or removing features",
            ),
        );
        types.push(ctype("perf", "🐎", "A code change that improves performance"));
        types.push(ctype("test", "🧪", "A change that only adds or updates tests"));
        types.push(ctype("ci", "🔄", "Changes to our CI configuration files and scripts"));
        types.push(ctype("revert", "🔙", "Reverts a previous commit"));
        types.push(ctype("release", "🔖", "Releases a new version"));
        types.push(ctype("wip", "🚧", "Work in progress"));
        types.push(
            ctype(
                "i18n",
                "🌐",
                "A change that updates or adds translations (internationalization)",
            ),
        );
        CocoConfig {
            theme: Theme::default_theme(),
            use_emoji: true,
            ask_scope: true,
            ask_body: true,
            ask_footer: true,
            ask_breaking_change: true,
            max_summary_length: 72,
            scopes: Vec::new(),
            types,
        }
    }

    fn overlay(config: CocoConfig, file: PartialConfig) -> (r: CocoConfig)
        ensures
            overlaid(config, file, r),
    {
        let ghost before = config.theme.entries@;
        let theme = match file.theme {
            Some(t) => config.theme.merge(t),
            None => config.theme,
        };
        assert(theme.entries@ =~= before + theme_layer(file));
        CocoConfig {
            theme,
            use_emoji: match file.use_emoji {
                Some(v) => v,
                None => config.use_emoji,
            },
            ask_scope: match file.ask_scope {
                Some(v) => v,
                None => config.ask_scope,
            },
            ask_body: match file.ask_body {
                Some(v) => v,
                None => config.ask_body,
            },
            ask_footer: match file.ask_footer {
                Some(v) => v,
                None => config.ask_footer,
            },
            ask_breaking_change: match file.ask_breaking_change {
                Some(v) => v,
                None => config.ask_breaking_change,
            },
            max_summary_length: match file.max_summary_length {
                Some(v) => v,
                None => config.max_summary_length,
            },
            scopes: match file.scopes {
                Some(v) => v,
                None => config.scopes,
            },
            types: match file.types {
                Some(v) => v,
                None => config.types,
            },
        }
    }

    /// The configuration of a run: the defaults, with the settings of the
    /// global file laid over them, and those of the project's file over
    /// both.
    pub fn merge_configs(
        default: CocoConfig,
        home: Option<PartialConfig>,
        current: Option<PartialConfig>,
    ) -> (r: CocoConfig)
        ensures
            ({
                let h = layer(home);
                let c = layer(current);
                &&& r.theme.entries@ == default.theme.entries@ + theme_layer(h) + theme_layer(c)
                &&& r.use_emoji == pick(c.use_emoji, pick(h.use_emoji, default.use_emoji))
                &&& r.ask_scope == pick(c.ask_scope, pick(h.ask_scope, default.ask_scope))
                &&& r.ask_body == pick(c.ask_body, pick(h.ask_body, default.ask_body))
                &&& r.ask_footer == pick(c.ask_footer, pick(h.ask_footer, default.ask_footer))
                &&& r.ask_breaking_change == pick(
                    c.ask_breaking_change,
                    pick(h.ask_breaking_change, default.ask_breaking_change),
                )
                &&& r.max_summary_length == pick(
                    c.max_summary_length,
                    pick(h.max_summary_length, default.max_summary_length),
                )
                &&& r.scopes@ == pick(c.scopes, pick(h.scopes, default.scopes))@
                &&& r.types@ == pick(c.types, pick(h.types, default.types))@
            }),
    {
        let mut config = default;
        match home {
            Some(h) => {
                config = Self::overlay(config, h);
            },
            None => {
                assert(config.theme.entries@ + theme_layer(layer(home)) =~= config.theme.entries@);
            },
        }
        match current {
            Some(c) => {
                config = Self::overlay(config, c);
            },
            None => {
                assert(config.theme.entries@ + theme_layer(layer(current))
                    =~= config.theme.entries@);
            },
        }
        config
    }
}

} // verus!
