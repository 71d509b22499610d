//! The loading screens shown while `SceneLoader` loads a scene in the
//! background: when loading counts as complete, what the progress label says,
//! and when the screen may close. The eased progress value is a
//! floating-point quantity kept by the engine side, which hands over the
//! rounded percentage and whether the bar has (nearly) reached its target.
use vstd::prelude::*;
use crate::text::{label_with_percent, progress_label};

verus! {

/// The status `SceneLoader.get_status()` reports once the threaded load has
/// finished (`THREAD_LOAD_LOADED`).
pub open spec fn status_loaded() -> i64 {
    1
}

/// When the "complete" text became visible, after a labelled frame: set to
/// `now` on the first complete frame (while it is still unset), kept after
/// that, and cleared while loading is not complete.
pub open spec fn visible_since_after(complete: bool, since: i64, now: i64) -> i64 {
    if complete {
        if since == 0 {
            now
        } else {
            since
        }
    } else {
        0
    }
}

/// Whether loading counts as complete after a frame's loader status.
pub open spec fn complete_after_status(complete: bool, status: i64) -> bool {
    complete || status == status_loaded()
}

/// The completion state `(complete, visible_since_ms)` of a loading screen
/// after one frame `(status, now_ms)`: the loader's status is taken first,
/// then the label records when the "complete" text became visible.
pub open spec fn after_frame(state: (bool, i64), frame: (i64, i64)) -> (bool, i64) {
    let complete = complete_after_status(state.0, frame.0);
    (complete, visible_since_after(complete, state.1, frame.1))
}

/// The completion state after a run of frames.
pub open spec fn after_frames(state: (bool, i64), frames: Seq<(i64, i64)>) -> (bool, i64)
    decreases frames.len(),
{
    if frames.len() == 0 {
        state
    } else {
        after_frames(after_frame(state, frames[0]), frames.drop_first())
    }
}

/// The screen may close: loading is complete, the bar has reached the end,
/// the "complete" text has been visible since a recorded time, and at least
/// `hold_ms` milliseconds have passed since then.
pub open spec fn can_close_spec(
    complete: bool,
    displayed_reached: bool,
    since: i64,
    hold_ms: i64,
    now: i64,
) -> bool {
    complete && displayed_reached && since > 0 && now - since >= hold_ms
}

/// The close condition shared by both loading screens.
fn close_condition(
    complete: bool,
    displayed_reached: bool,
    since: i64,
    hold_ms: i64,
    now: i64,
) -> (r: bool)
    requires
        complete && displayed_reached && since > 0 ==> now - since >= i64::MIN,
    ensures
        r == can_close_spec(complete, displayed_reached, since, hold_ms, now),
{
    if !complete {
        return false;
    }
    if !displayed_reached {
        return false;
    }
    if since <= 0 {
        return false;
    }
    let elapsed = now - since;
    elapsed >= hold_ms
}

/// The texts of a loading screen.
pub open spec fn loading_text() -> Seq<char> {
    "Loading..."@
}

/// The text once loading is complete.
pub open spec fn complete_text() -> Seq<char> {
    "Loading Complete!"@
}

/// The loading screen.
pub struct LoadingScreen {
    /// The label text while loading.
    pub in_progress_text: String,
    /// The label text once loading is complete.
    pub complete_text: String,
    /// `SceneLoader` reported the scene as loaded.
    pub scene_loading_complete: bool,
    /// When loading started (engine ticks, in milliseconds).
    pub loading_start_time_ms: i64,
    /// When the "complete" text became visible, or 0.
    pub complete_visible_since_ms: i64,
}

impl LoadingScreen {
    /// Whether this screen may close, given whether the bar has reached the
    /// end, the hold time and the engine ticks.
    pub open spec fn may_close(self, displayed_reached: bool, hold_ms: i64, now_ms: i64) -> bool {
        can_close_spec(
            self.scene_loading_complete,
            displayed_reached,
            self.complete_visible_since_ms,
            hold_ms,
            now_ms,
        )
    }

    /// The loading screen with its defaults.
    pub fn new() -> (s: LoadingScreen)
        ensures
            s.in_progress_text@ == loading_text(),
            s.complete_text@ == complete_text(),
            !s.scene_loading_complete,
            s.loading_start_time_ms == 0,
            s.complete_visible_since_ms == 0,
    {
        LoadingScreen {
            in_progress_text: "Loading...".to_owned(),
            complete_text: "Loading Complete!".to_owned(),
            scene_loading_complete: false,
            loading_start_time_ms: 0,
            complete_visible_since_ms: 0,
        }
    }

    /// Starts over (on `ready` and when asked): not complete, started now.
    pub fn reset(&mut self, now_ms: i64)
        ensures
            !final(self).scene_loading_complete,
            final(self).loading_start_time_ms == now_ms,
            final(self).complete_visible_since_ms == 0,
            final(self).in_progress_text == old(self).in_progress_text,
            final(self).complete_text == old(self).complete_text,
    {
        self.scene_loading_complete = false;
        self.loading_start_time_ms = now_ms;
        self.complete_visible_since_ms = 0;
    }

    /// Takes the status reported by `SceneLoader` this frame (-1 when there is
    /// no loader). Returns whether the scene is loaded now, in which case the
    /// engine side sets the loading progress to 1.
    pub fn on_loader_status(&mut self, status: i64) -> (loaded: bool)
        ensures
            loaded == (status == status_loaded()),
            final(self).scene_loading_complete == complete_after_status(
                old(self).scene_loading_complete,
                status,
            ),
            final(self).loading_start_time_ms == old(self).loading_start_time_ms,
            final(self).complete_visible_since_ms == old(self).complete_visible_since_ms,
            final(self).in_progress_text == old(self).in_progress_text,
            final(self).complete_text == old(self).complete_text,
    {
        if status == 1 {
            self.scene_loading_complete = true;
        }
        status == 1
    }

    /// The progress label of this frame, given the rounded percentage shown
    /// by the bar and the engine ticks; records when the "complete" text
    /// became visible.
    pub fn frame_label(&mut self, percent: i64, now_ms: i64) -> (label: String)
        ensures
            label@ == label_with_percent(
                if old(self).scene_loading_complete {
                    old(self).complete_text@
                } else {
                    old(self).in_progress_text@
                },
                percent as int,
            ),
            final(self).complete_visible_since_ms == visible_since_after(
                old(self).scene_loading_complete,
                old(self).complete_visible_since_ms,
                now_ms,
            ),
            final(self).scene_loading_complete == old(self).scene_loading_complete,
            final(self).loading_start_time_ms == old(self).loading_start_time_ms,
            final(self).in_progress_text == old(self).in_progress_text,
            final(self).complete_text == old(self).complete_text,
    {
        if self.scene_loading_complete {
            if self.complete_visible_since_ms == 0 {
                self.complete_visible_since_ms = now_ms;
            }
            progress_label(self.complete_text.as_str(), percent)
        } else {
            self.complete_visible_since_ms = 0;
            progress_label(self.in_progress_text.as_str(), percent)
        }
    }

    /// Whether the loading screen may close now. `displayed_reached` says the
    /// displayed progress is at least 0.999; `hold_ms` is how long the
    /// "complete" text must stay visible.
    pub fn can_close_loading_screen(&self, displayed_reached: bool, hold_ms: i64, now_ms: i64) -> (r:
        bool)
        requires
            self.scene_loading_complete && displayed_reached && self.complete_visible_since_ms > 0
                ==> now_ms - self.complete_visible_since_ms >= i64::MIN,
        ensures
            r == self.may_close(displayed_reached, hold_ms, now_ms),
    {
        close_condition(
            self.scene_loading_complete,
            displayed_reached,
            self.complete_visible_since_ms,
            hold_ms,
            now_ms,
        )
    }
}

/// The loading screen that may also warm up a shader cache scene.
pub struct ShaderCachingLoadingScreen {
    /// Folder of the spatial shader materials to cache; empty disables caching.
    pub spatial_shader_material_dir: String,
    /// Scene that caches the shaders; empty disables caching.
    pub cache_shaders_scene: String,
    /// File extensions of the materials to cache.
    pub matching_extensions: Vec<String>,
    /// Folder names to skip while looking for materials.
    pub ignore_subfolders: Vec<String>,
    /// `SceneLoader` reported the scene as loaded.
    pub scene_loading_complete: bool,
    /// The shader cache phase has been entered.
    pub loading_shader_cache: bool,
    /// The shader cache phase is complete (its progress is 1).
    pub caching_complete: bool,
    /// When the "complete" text became visible, or 0.
    pub complete_visible_since_ms: i64,
}

/// The shader cache is in use: both its folder and its scene are set and the
/// loader reports that it is loading the cache scene.
pub open spec fn can_load_cache_spec(
    dir: Seq<char>,
    scene: Seq<char>,
    loader_loading_cache_scene: Option<bool>,
) -> bool {
    dir.len() > 0 && scene.len() > 0 && loader_loading_cache_scene == Some(true)
}

impl ShaderCachingLoadingScreen {
    /// Whether this screen may close, given whether the bar has reached the
    /// end, the hold time and the engine ticks.
    pub open spec fn may_close(self, displayed_reached: bool, hold_ms: i64, now_ms: i64) -> bool {
        can_close_spec(
            self.scene_loading_complete,
            displayed_reached,
            self.complete_visible_since_ms,
            hold_ms,
            now_ms,
        )
    }

    /// The screen with its defaults.
    pub fn new() -> (s: ShaderCachingLoadingScreen)
        ensures
            s.spatial_shader_material_dir@ == Seq::<char>::empty(),
            s.cache_shaders_scene@ == Seq::<char>::empty(),
            s.matching_extensions.deep_view() == seq![".tres"@, ".material"@, ".res"@],
            s.ignore_subfolders.deep_view() == seq!["."@, ".."@],
            !s.scene_loading_complete,
            !s.loading_shader_cache,
            !s.caching_complete,
            s.complete_visible_since_ms == 0,
    {
        let mut matching_extensions: Vec<String> = Vec::new();
        matching_extensions.push(".tres".to_owned());
        matching_extensions.push(".material".to_owned());
        matching_extensions.push(".res".to_owned());
        let mut ignore_subfolders: Vec<String> = Vec::new();
        ignore_subfolders.push(".".to_owned());
        ignore_subfolders.push("..".to_owned());
        let s = ShaderCachingLoadingScreen {
            spatial_shader_material_dir: String::new(),
            cache_shaders_scene: String::new(),
            matching_extensions,
            ignore_subfolders,
            scene_loading_complete: false,
            loading_shader_cache: false,
            caching_complete: false,
            complete_visible_since_ms: 0,
        };
        assert(s.matching_extensions.deep_view() =~= seq![".tres"@, ".material"@, ".res"@]);
        assert(s.ignore_subfolders.deep_view() =~= seq!["."@, ".."@]);
        s
    }

    /// On `ready`: the "complete" text has not been shown yet.
    pub fn on_ready(&mut self)
        ensures
            final(self).complete_visible_since_ms == 0,
            final(self).scene_loading_complete == old(self).scene_loading_complete,
            final(self).loading_shader_cache == old(self).loading_shader_cache,
            final(self).caching_complete == old(self).caching_complete,
            final(self).spatial_shader_material_dir == old(self).spatial_shader_material_dir,
            final(self).cache_shaders_scene == old(self).cache_shaders_scene,
            final(self).matching_extensions == old(self).matching_extensions,
            final(self).ignore_subfolders == old(self).ignore_subfolders,
    {
        self.complete_visible_since_ms = 0;
    }

    /// Whether to ask the loader about the cache scene at all: both the
    /// folder and the scene are set.
    pub fn should_query_shader_cache(&self) -> (r: bool)
        ensures
            r == (self.spatial_shader_material_dir@.len() > 0 && self.cache_shaders_scene@.len()
                > 0),
    {
        !self.spatial_shader_material_dir.as_str().is_empty()
            && !self.cache_shaders_scene.as_str().is_empty()
    }

    /// Whether the shader cache is in use, given the loader's answer to
    /// `is_loading_scene(cache_shaders_scene)` (`None` without a loader).
    pub fn can_load_shader_cache(&self, loader_loading_cache_scene: Option<bool>) -> (r: bool)
        ensures
            r == can_load_cache_spec(
                self.spatial_shader_material_dir@,
                self.cache_shaders_scene@,
                loader_loading_cache_scene,
            ),
    {
        if !self.should_query_shader_cache() {
            return false;
        }
        match loader_loading_cache_scene {
            Some(b) => b,
            None => false,
        }
    }

    /// Takes this frame's loader status. Once loaded, the cache phase (if in
    /// use) is entered and marked complete, and the loader is released
    /// (background loading off, processing on) when the cache is not in use
    /// or complete. Returns whether to release the loader.
    pub fn on_loader_status(&mut self, status: i64, can_load_cache: bool, scene_loader_present: bool) -> (release: bool)
        ensures
            status != status_loaded() ==> !release && final(self).scene_loading_complete
                == old(self).scene_loading_complete && final(self).loading_shader_cache
                == old(self).loading_shader_cache && final(self).caching_complete
                == old(self).caching_complete,
            status == status_loaded() ==> {
                &&& final(self).scene_loading_complete
                &&& final(self).loading_shader_cache == (old(self).loading_shader_cache
                    || can_load_cache)
                &&& final(self).caching_complete == (old(self).caching_complete || (can_load_cache
                    && !old(self).loading_shader_cache))
                &&& release == (scene_loader_present && (!can_load_cache
                    || final(self).caching_complete))
            },
            final(self).complete_visible_since_ms == old(self).complete_visible_since_ms,
            final(self).spatial_shader_material_dir == old(self).spatial_shader_material_dir,
            final(self).cache_shaders_scene == old(self).cache_shaders_scene,
            final(self).matching_extensions == old(self).matching_extensions,
            final(self).ignore_subfolders == old(self).ignore_subfolders,
    {
        if status != 1 {
            return false;
        }
        self.scene_loading_complete = true;
        if can_load_cache && !self.loading_shader_cache {
            self.loading_shader_cache = true;
            self.caching_complete = true;
        }
        scene_loader_present && (!can_load_cache || self.caching_complete)
    }

    /// The progress label of this frame; records when the "complete" text
    /// became visible.
    pub fn frame_label(&mut self, percent: i64, now_ms: i64) -> (label: String)
        ensures
            label@ == label_with_percent(
                if old(self).scene_loading_complete {
                    complete_text()
                } else {
                    loading_text()
                },
                percent as int,
            ),
            final(self).complete_visible_since_ms == visible_since_after(
                old(self).scene_loading_complete,
                old(self).complete_visible_since_ms,
                now_ms,
            ),
            final(self).scene_loading_complete == old(self).scene_loading_complete,
            final(self).loading_shader_cache == old(self).loading_shader_cache,
            final(self).caching_complete == old(self).caching_complete,
            final(self).spatial_shader_material_dir == old(self).spatial_shader_material_dir,
            final(self).cache_shaders_scene == old(self).cache_shaders_scene,
            final(self).matching_extensions == old(self).matching_extensions,
            final(self).ignore_subfolders == old(self).ignore_subfolders,
    {
        if self.scene_loading_complete {
            if self.complete_visible_since_ms == 0 {
                self.complete_visible_since_ms = now_ms;
            }
            progress_label("Loading Complete!", percent)
        } else {
            self.complete_visible_since_ms = 0;
            progress_label("Loading...", percent)
        }
    }

    /// Whether the loading screen may close now.
    pub fn can_close_loading_screen(&self, displayed_reached: bool, hold_ms: i64, now_ms: i64) -> (r:
        bool)
        requires
            self.scene_loading_complete && displayed_reached && self.complete_visible_since_ms > 0
                ==> now_ms - self.complete_visible_since_ms >= i64::MIN,
        ensures
            r == self.may_close(displayed_reached, hold_ms, now_ms),
    {
        close_condition(
            self.scene_loading_complete,
            displayed_reached,
            self.complete_visible_since_ms,
            hold_ms,
            now_ms,
        )
    }
}

/// A loading screen that is not complete never closes; in particular not
/// right after a reset.
pub proof fn law_incomplete_never_closes(displayed_reached: bool, since: i64, hold_ms: i64, now: i64)
    ensures
        !can_close_spec(false, displayed_reached, since, hold_ms, now),
{
}

/// A screen that may close has been complete for at least `hold_ms`
/// milliseconds of recorded visibility.
pub proof fn law_close_needs_hold(
    complete: bool,
    displayed_reached: bool,
    since: i64,
    hold_ms: i64,
    now: i64,
)
    requires
        can_close_spec(complete, displayed_reached, since, hold_ms, now),
    ensures
        complete,
        displayed_reached,
        since > 0,
        now - since >= hold_ms,
{
}

/// Once recorded, the time the "complete" text became visible stays the same
/// on every later complete frame.
pub proof fn law_visible_since_is_stable(since: i64, now1: i64, now2: i64)
    requires
        visible_since_after(true, since, now1) != 0,
    ensures
        visible_since_after(true, visible_since_after(true, since, now1), now2)
            == visible_since_after(true, since, now1),
{
}

/// A loading screen that has not seen the loaded status stays incomplete,
/// with no "complete" time recorded, over any run of frames.
proof fn lemma_incomplete_run(frames: Seq<(i64, i64)>)
    requires
        forall|i: int| 0 <= i < frames.len() ==> frames[i].0 != status_loaded(),
    ensures
        after_frames((false, 0), frames) == (false, 0i64),
    decreases frames.len(),
{
    if frames.len() > 0 {
        assert(after_frame((false, 0), frames[0]) == (false, 0i64));
        let rest = frames.drop_first();
        assert forall|i: int| 0 <= i < rest.len() implies rest[i].0 != status_loaded() by {
            assert(rest[i] == frames[i + 1]);
        }
        lemma_incomplete_run(rest);
    }
}

/// After a reset (incomplete, no "complete" time), a loading screen cannot
/// close, whatever the bar, the hold time and the clock, over any run of
/// frames in which the loader never reports the scene as loaded.
pub proof fn law_no_close_before_loaded(
    frames: Seq<(i64, i64)>,
    displayed_reached: bool,
    hold_ms: i64,
    now_ms: i64,
)
    requires
        forall|i: int| 0 <= i < frames.len() ==> frames[i].0 != status_loaded(),
    ensures
        !after_frames((false, 0), frames).0,
        after_frames((false, 0), frames).1 == 0,
        !can_close_spec(
            after_frames((false, 0), frames).0,
            displayed_reached,
            after_frames((false, 0), frames).1,
            hold_ms,
            now_ms,
        ),
{
    lemma_incomplete_run(frames);
}

/// Both loading screens close on the same condition: with the same
/// completion state, bar, hold time and clock, they agree.
pub proof fn law_screens_close_alike(
    plain: LoadingScreen,
    caching: ShaderCachingLoadingScreen,
    displayed_reached: bool,
    hold_ms: i64,
    now_ms: i64,
)
    requires
        plain.scene_loading_complete == caching.scene_loading_complete,
        plain.complete_visible_since_ms == caching.complete_visible_since_ms,
    ensures
        plain.may_close(displayed_reached, hold_ms, now_ms) == caching.may_close(
            displayed_reached,
            hold_ms,
            now_ms,
        ),
{
}

/// A complete screen whose bar has reached the end and whose "complete" text
/// has a recorded time may close exactly when at least `hold_ms` milliseconds
/// have passed since then; and once it may close, it may close at every later
/// time.
pub proof fn law_close_after_hold(
    displayed_reached: bool,
    since: i64,
    hold_ms: i64,
    now: i64,
    later: i64,
)
    requires
        since > 0,
    ensures
        can_close_spec(true, true, since, hold_ms, now) <==> now - since >= hold_ms,
        now - since >= hold_ms ==> can_close_spec(true, true, since, hold_ms, now),
        can_close_spec(true, displayed_reached, since, hold_ms, now) && later >= now
            ==> can_close_spec(true, displayed_reached, since, hold_ms, later),
        !displayed_reached ==> !can_close_spec(true, displayed_reached, since, hold_ms, now),
{
}

} // verus!
