use vstd::prelude::*;

use crate::error::{Error, ErrorCategory, Result};
use crate::text::{decimal, push_decimal};
use vstd::math::min;

verus! {

/// The configuration format version this library reads and writes.
pub const CURRENT_CONFIG_VERSION: u32 = 1;

/// How many recent image paths are remembered.
pub const MAX_RECENT_IMAGES: usize = 10;

/// The persisted application configuration.
#[derive(Debug, Clone, PartialEq, Eq)]
pub struct AppConfig {
    pub config_version: u32,
    pub preferred_drive_letter: Option<String>,
    pub ui_language: Option<String>,
    pub recent_images: Vec<String>,
    pub logging_enabled: bool,
}

/// The texts of a list of paths.
pub open spec fn path_views(paths: Seq<String>) -> Seq<Seq<char>> {
    paths.map_values(|p: String| p@)
}

/// The recent-image list after opening `path`: `path` first, then the earlier
/// entries other than `path`, at most `MAX_RECENT_IMAGES` in all.
pub open spec fn spec_recent_after(recent: Seq<Seq<char>>, path: Seq<char>) -> Seq<Seq<char>> {
    let others = recent.filter(other_than(path));
    (seq![path] + others).take(min(MAX_RECENT_IMAGES as int, 1 + others.len() as int))
}

/// The predicate that holds of every path but `path`.
pub open spec fn other_than(path: Seq<char>) -> spec_fn(Seq<char>) -> bool {
    |p: Seq<char>| p != path
}

/// Whether the paths are pairwise distinct.
pub open spec fn distinct(paths: Seq<Seq<char>>) -> bool {
    forall|i: int, j: int| 0 <= i < j < paths.len() ==> paths[i] != paths[j]
}

impl Default for AppConfig {
    fn default() -> (c: Self)
        ensures
            c.config_version == CURRENT_CONFIG_VERSION,
            c.preferred_drive_letter is None,
            c.ui_language is None,
            c.recent_images@.len() == 0,
            c.logging_enabled,
    {
        AppConfig {
            config_version: CURRENT_CONFIG_VERSION,
            preferred_drive_letter: None,
            ui_language: None,
            recent_images: Vec::new(),
            logging_enabled: true,
        }
    }
}

impl AppConfig {
    /// The configuration with at most `MAX_RECENT_IMAGES` recent images.
    pub fn bounded(self) -> (c: Self)
        ensures
            c.recent_images@ == self.recent_images@.take(
                min(MAX_RECENT_IMAGES as int, self.recent_images@.len() as int),
            ),
            c.config_version == self.config_version,
            c.preferred_drive_letter == self.preferred_drive_letter,
            c.ui_language == self.ui_language,
            c.logging_enabled == self.logging_enabled,
    {
        let mut c = self;
        c.recent_images.truncate(MAX_RECENT_IMAGES);
        proof {
            assert(c.recent_images@ =~= self.recent_images@.take(
                min(MAX_RECENT_IMAGES as int, self.recent_images@.len() as int),
            ));
        }
        c
    }

    /// Moves `path` to the front of the recent images, dropping older copies of it
    /// and keeping at most `MAX_RECENT_IMAGES`.
    pub fn record_recent_image(&mut self, path: String)
        ensures
            path_views(final(self).recent_images@) == spec_recent_after(
                path_views(old(self).recent_images@),
                path@,
            ),
            final(self).config_version == old(self).config_version,
            final(self).preferred_drive_letter == old(self).preferred_drive_letter,
            final(self).ui_language == old(self).ui_language,
            final(self).logging_enabled == old(self).logging_enabled,
    {
        let ghost old_views = path_views(self.recent_images@);
        let ghost keep = other_than(path@);
        let mut kept: Vec<String> = Vec::new();
        let mut i: usize = 0;
        while i < self.recent_images.len()
            invariant
                i <= self.recent_images@.len(),
                old_views == path_views(self.recent_images@),
                keep == other_than(path@),
                path_views(kept@) == old_views.take(i as int).filter(keep),
            decreases self.recent_images@.len() - i,
        {
            proof {
                reveal(Seq::filter);
                assert(old_views.take(i + 1).drop_last() =~= old_views.take(i as int));
                assert(old_views.take(i + 1).last() == self.recent_images@[i as int]@);
            }
            if self.recent_images[i] != path {
                let ghost before = kept@;
                kept.push(self.recent_images[i].clone());
                assert(path_views(kept@) =~= path_views(before).push(self.recent_images@[i as int]@));
            }
            i = i + 1;
        }
        assert(old_views.take(old_views.len() as int) =~= old_views);
        let ghost filtered = path_views(kept@);
        kept.insert(0, path);
        assert(path_views(kept@) =~= seq![path@] + filtered);
        kept.truncate(MAX_RECENT_IMAGES);
        assert(path_views(kept@) =~= (seq![path@] + filtered).take(
            min(MAX_RECENT_IMAGES as int, 1 + filtered.len() as int),
        ));
        self.recent_images = kept;
    }
}

/// Opening an image puts its path first, keeps the list within
/// `MAX_RECENT_IMAGES`, keeps only paths that were there before, and keeps a list
/// without repeats free of repeats.
pub proof fn lemma_recent_images_stay_bounded(recent: Seq<Seq<char>>, path: Seq<char>)
    ensures
        spec_recent_after(recent, path).len() <= MAX_RECENT_IMAGES,
        spec_recent_after(recent, path).len() >= 1,
        spec_recent_after(recent, path)[0] == path,
        forall|i: int|
            1 <= i < spec_recent_after(recent, path).len() ==> (#[trigger] spec_recent_after(
                recent,
                path,
            )[i]) != path && recent.contains(spec_recent_after(recent, path)[i]),
        distinct(recent) ==> distinct(spec_recent_after(recent, path)),
{
    let others = recent.filter(other_than(path));
    let result = spec_recent_after(recent, path);
    let joined = seq![path] + others;
    assert(result == joined.take(min(MAX_RECENT_IMAGES as int, 1 + others.len() as int)));
    assert forall|i: int| 1 <= i < result.len() implies (#[trigger] result[i]) != path
        && recent.contains(result[i]) by {
        assert(result[i] == others[i - 1]);
        assert(others.contains(others[i - 1]));
        recent.lemma_filter_contains_rev(other_than(path), others[i - 1]);
    }
    if distinct(recent) {
        lemma_filter_distinct(recent, path);
        assert forall|i: int, j: int| 0 <= i < j < result.len() implies result[i] != result[j] by {
            if i == 0 {
                assert(result[j] == others[j - 1]);
                assert(others.contains(others[j - 1]));
                recent.lemma_filter_contains_rev(other_than(path), others[j - 1]);
            } else {
                assert(result[i] == others[i - 1]);
                assert(result[j] == others[j - 1]);
            }
        }
    }
}

/// Dropping the copies of one path from a list without repeats leaves a list
/// without repeats.
proof fn lemma_filter_distinct(recent: Seq<Seq<char>>, path: Seq<char>)
    requires
        distinct(recent),
    ensures
        distinct(recent.filter(other_than(path))),
    decreases recent.len(),
{
    reveal(Seq::filter);
    if recent.len() > 0 {
        let rest = recent.drop_last();
        assert(distinct(rest));
        lemma_filter_distinct(rest, path);
        let kept = rest.filter(other_than(path));
        if other_than(path)(recent.last()) {
            assert(recent.filter(other_than(path)) == kept.push(recent.last()));
            assert forall|i: int| 0 <= i < kept.len() implies kept[i] != recent.last() by {
                assert(kept.contains(kept[i]));
                rest.lemma_filter_contains_rev(other_than(path), kept[i]);
                let k = choose|k: int| 0 <= k < rest.len() && rest[k] == kept[i];
                assert(recent[k] == rest[k]);
                assert(recent.last() == recent[recent.len() - 1]);
            }
        } else {
            assert(recent.filter(other_than(path)) == kept);
        }
    }
}

/// The message of a configuration with an unknown version.
pub open spec fn version_error_text(version: u32) -> Seq<char> {
    "unsupported configuration version "@ + decimal(version as nat)
}

/// Accepts a configuration read from disk: its version must be the current one,
/// and its recent-image list is bounded.
pub fn validate_loaded(config: AppConfig) -> (r: Result<AppConfig>)
    ensures
        r is Ok <==> config.config_version == CURRENT_CONFIG_VERSION,
        r matches Ok(c) ==> c.recent_images@ == config.recent_images@.take(
            min(MAX_RECENT_IMAGES as int, config.recent_images@.len() as int),
        ) && c.config_version == config.config_version && c.preferred_drive_letter
            == config.preferred_drive_letter && c.ui_language == config.ui_language
            && c.logging_enabled == config.logging_enabled,
        r matches Err(e) ==> e.kind() == ErrorCategory::Configuration && e.text()
            == version_error_text(config.config_version),
{
    if config.config_version != CURRENT_CONFIG_VERSION {
        let mut message = String::from_str("unsupported configuration version ");
        push_decimal(&mut message, config.config_version as u64);
        return Err(Error::new(ErrorCategory::Configuration, message.as_str()));
    }
    Ok(config.bounded())
}

/// Where the configuration is kept.
pub struct ConfigStore {
    path: String,
}

impl ConfigStore {
    /// The configuration file path.
    pub closed spec fn location(&self) -> Seq<char> {
        self.path@
    }

    pub fn new(path: String) -> (s: Self)
        ensures
            s.location() == path@,
    {
        ConfigStore { path }
    }

    pub fn path(&self) -> (p: &str)
        ensures
            p@ == self.location(),
    {
        self.path.as_str()
    }
}

} // verus!
