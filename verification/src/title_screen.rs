//! The title screen ("click to start"): which background it shows and how a
//! click leads to the main menu, at most once.
use vstd::prelude::*;
use crate::input::InputSummary;
use crate::scene_paths::{
    default_main_menu_scene, default_main_menu_scene_path, default_menu_background,
    default_menu_background_path, default_title_background, default_title_background_path,
    resolve_scene_path, resolved_scene_path,
};

verus! {

/// The prompt shown under the title.
pub open spec fn default_prompt() -> Seq<char> {
    "Clique na tela para iniciar"@
}

fn default_prompt_text() -> (r: String)
    ensures
        r@ == default_prompt(),
{
    "Clique na tela para iniciar".to_owned()
}

/// What the engine side has to do to leave the title screen.
#[derive(Clone, Copy, Debug, PartialEq, Eq, Structural)]
pub enum TransitionKind {
    /// Nothing.
    Stay,
    /// The target scene path is empty: warn that `main_menu_scene_path` is empty.
    WarnEmptyTarget,
    /// Call `load_scene(target)` on the `SceneLoader` autoload.
    LoadWithSceneLoader,
    /// Change the tree's current scene to the target file.
    ChangeSceneToFile,
}

/// A transition with the scene it goes to (empty unless it loads one).
pub struct MenuTransition {
    pub kind: TransitionKind,
    pub target: String,
}

/// The kind of transition a click produces, given whether a transition is
/// already under way, the resolved target, and what the tree offers.
pub open spec fn transition_kind(
    transitioning: bool,
    target: Seq<char>,
    scene_loader_present: bool,
    in_tree: bool,
) -> TransitionKind {
    if transitioning {
        TransitionKind::Stay
    } else if target.len() == 0 {
        TransitionKind::WarnEmptyTarget
    } else if scene_loader_present {
        TransitionKind::LoadWithSceneLoader
    } else if in_tree {
        TransitionKind::ChangeSceneToFile
    } else {
        TransitionKind::Stay
    }
}

/// Whether a transition is under way after a click.
pub open spec fn transitioning_after(transitioning: bool, target: Seq<char>) -> bool {
    transitioning || target.len() > 0
}

/// The state of the title screen.
pub struct TitleScreen {
    /// The main-menu scene set on the node; empty means "ask `AppConfig`".
    pub main_menu_scene_path: String,
    /// The background image path set on the node.
    pub background_image_path: String,
    /// The prompt text.
    pub prompt_text: String,
    /// A transition to the main menu has been started.
    pub transitioning: bool,
}

impl TitleScreen {
    /// The title screen as the editor creates it.
    pub fn new() -> (s: TitleScreen)
        ensures
            s.main_menu_scene_path@ == Seq::<char>::empty(),
            s.background_image_path@ == default_title_background(),
            s.prompt_text@ == default_prompt(),
            !s.transitioning,
    {
        TitleScreen {
            main_menu_scene_path: String::new(),
            background_image_path: default_title_background_path(),
            prompt_text: default_prompt_text(),
            transitioning: false,
        }
    }

    /// The scene this title screen leads to: its own setting, else the
    /// `main_menu_scene_path` of `AppConfig` (`app_config`, when that autoload
    /// exists), else the animated main menu.
    pub open spec fn target_spec(self, app_config: Option<Seq<char>>) -> Seq<char> {
        resolved_scene_path(self.main_menu_scene_path@, app_config, default_main_menu_scene())
    }

    /// Resolves the main-menu scene path.
    pub fn resolve_main_menu_scene_path(&self, app_config: Option<String>) -> (r: String)
        ensures
            r@ == self.target_spec(app_config.deep_view()),
    {
        let default = default_main_menu_scene_path();
        resolve_scene_path(self.main_menu_scene_path.as_str(), app_config, default.as_str())
    }

    /// Whether an input event starts the transition (a left click).
    pub fn starts_transition(&self, event: &InputSummary) -> (r: bool)
        ensures
            r == event.is_left_press_spec(),
    {
        event.is_left_press()
    }

    /// Leaves for the main menu: nothing while a transition is under way;
    /// a warning when the target is empty; otherwise marks the transition and
    /// loads the target through `SceneLoader`, or changes the scene directly.
    pub fn go_to_menu(
        &mut self,
        app_config: Option<String>,
        scene_loader_present: bool,
        in_tree: bool,
    ) -> (r: MenuTransition)
        ensures
            r.kind == transition_kind(
                old(self).transitioning,
                old(self).target_spec(app_config.deep_view()),
                scene_loader_present,
                in_tree,
            ),
            r.kind == TransitionKind::LoadWithSceneLoader || r.kind
                == TransitionKind::ChangeSceneToFile ==> r.target@ == old(self).target_spec(
                app_config.deep_view(),
            ),
            final(self).transitioning == transitioning_after(
                old(self).transitioning,
                old(self).target_spec(app_config.deep_view()),
            ),
            final(self).main_menu_scene_path == old(self).main_menu_scene_path,
            final(self).background_image_path == old(self).background_image_path,
            final(self).prompt_text == old(self).prompt_text,
    {
        if self.transitioning {
            return MenuTransition { kind: TransitionKind::Stay, target: String::new() };
        }
        let target = self.resolve_main_menu_scene_path(app_config);
        if target.as_str().is_empty() {
            return MenuTransition { kind: TransitionKind::WarnEmptyTarget, target: String::new() };
        }
        self.transitioning = true;
        if scene_loader_present {
            MenuTransition { kind: TransitionKind::LoadWithSceneLoader, target }
        } else if in_tree {
            MenuTransition { kind: TransitionKind::ChangeSceneToFile, target }
        } else {
            MenuTransition { kind: TransitionKind::Stay, target: String::new() }
        }
    }

    /// The direct scene change failed: the transition is abandoned, so that
    /// another click may try again.
    pub fn change_scene_failed(&mut self)
        ensures
            !final(self).transitioning,
            final(self).main_menu_scene_path == old(self).main_menu_scene_path,
            final(self).background_image_path == old(self).background_image_path,
            final(self).prompt_text == old(self).prompt_text,
    {
        self.transitioning = false;
    }
}

/// Once a click has asked for the main menu, later clicks ask for nothing,
/// whatever the configuration and the tree look like then.
pub proof fn law_title_screen_leaves_once(
    first_target: Seq<char>,
    first_loader: bool,
    first_in_tree: bool,
    later_target: Seq<char>,
    later_loader: bool,
    later_in_tree: bool,
)
    requires
        transition_kind(false, first_target, first_loader, first_in_tree)
            == TransitionKind::LoadWithSceneLoader || transition_kind(
            false,
            first_target,
            first_loader,
            first_in_tree,
        ) == TransitionKind::ChangeSceneToFile,
    ensures
        transitioning_after(false, first_target),
        transition_kind(
            transitioning_after(false, first_target),
            later_target,
            later_loader,
            later_in_tree,
        ) == TransitionKind::Stay,
{
}

/// The title screen never warns about an empty target when it has no own
/// path and no `AppConfig`: it falls back to the animated main menu.
pub proof fn law_title_screen_default_target(own: Seq<char>)
    requires
        own.len() == 0,
    ensures
        resolved_scene_path(own, None, default_main_menu_scene()) == default_main_menu_scene(),
        default_main_menu_scene().len() > 0,
{
    reveal_strlit("res://scenes/menus/main_menu/main_menu_with_animations.tscn");
}

/// The scripted variant of the title screen, driven by a GDScript owner: it
/// marks the transition on the first left click, before resolving the
/// target, and falls back to the animated main menu when nothing names one.
pub struct TitleScreenLogic {
    pub main_menu_scene_path: String,
    pub background_image_path: String,
    pub prompt_text: String,
    pub transitioning: bool,
}

/// The target of the scripted title screen: its own path, else the non-nil
/// `AppConfig.main_menu_scene_path`, else the animated main menu.
pub open spec fn logic_target(own: Seq<char>, app_config: Option<Seq<char>>) -> Seq<char> {
    let resolved = resolved_scene_path(own, app_config, Seq::empty());
    if resolved.len() == 0 {
        default_main_menu_scene()
    } else {
        resolved
    }
}

/// The kind of transition the scripted title screen asks for on an event:
/// only a left press while no transition is under way leads anywhere.
pub open spec fn logic_kind(
    transitioning: bool,
    left_press: bool,
    scene_loader_present: bool,
    in_tree: bool,
) -> TransitionKind {
    if transitioning || !left_press {
        TransitionKind::Stay
    } else if scene_loader_present {
        TransitionKind::LoadWithSceneLoader
    } else if in_tree {
        TransitionKind::ChangeSceneToFile
    } else {
        TransitionKind::Stay
    }
}

/// Whether the scripted title screen is transitioning after an event: a left
/// press starts the transition, and nothing ends it.
pub open spec fn logic_transitioning_after(transitioning: bool, left_press: bool) -> bool {
    transitioning || left_press
}

/// How many of the given events (each with whether `SceneLoader` exists and
/// whether the owner is in a tree) make the scripted title screen ask for a
/// scene, starting from `transitioning`.
pub open spec fn logic_requests(transitioning: bool, inputs: Seq<(InputSummary, bool, bool)>) -> nat
    decreases inputs.len(),
{
    if inputs.len() == 0 {
        0
    } else {
        let e = inputs[0];
        let asked: nat = if logic_kind(transitioning, e.0.is_left_press_spec(), e.1, e.2)
            == TransitionKind::Stay {
            0
        } else {
            1
        };
        asked + logic_requests(
            logic_transitioning_after(transitioning, e.0.is_left_press_spec()),
            inputs.drop_first(),
        )
    }
}

/// Whether the scripted title screen is transitioning after the given events.
pub open spec fn logic_transitioning_after_run(
    transitioning: bool,
    inputs: Seq<(InputSummary, bool, bool)>,
) -> bool
    decreases inputs.len(),
{
    if inputs.len() == 0 {
        transitioning
    } else {
        logic_transitioning_after_run(
            logic_transitioning_after(transitioning, inputs[0].0.is_left_press_spec()),
            inputs.drop_first(),
        )
    }
}

/// Once transitioning, the scripted title screen asks for nothing more and
/// stays transitioning.
pub proof fn lemma_logic_transitioning_is_final(inputs: Seq<(InputSummary, bool, bool)>)
    ensures
        logic_requests(true, inputs) == 0,
        logic_transitioning_after_run(true, inputs),
    decreases inputs.len(),
{
    if inputs.len() > 0 {
        lemma_logic_transitioning_is_final(inputs.drop_first());
    }
}

/// Over any sequence of events, the scripted title screen (starting, as
/// created, with no transition) asks for a scene at most once; events other
/// than a left press change nothing; and a transition, once started, never
/// ends.
pub proof fn law_title_screen_logic_leaves_once(inputs: Seq<(InputSummary, bool, bool)>)
    ensures
        logic_requests(false, inputs) <= 1,
        inputs.len() > 0 && !inputs[0].0.is_left_press_spec() ==> logic_requests(false, inputs)
            == logic_requests(false, inputs.drop_first()),
        forall|t: bool| t ==> logic_transitioning_after_run(t, inputs),
    decreases inputs.len(),
{
    lemma_logic_transitioning_is_final(inputs);
    if inputs.len() > 0 {
        let e = inputs[0];
        lemma_logic_transitioning_is_final(inputs.drop_first());
        if !e.0.is_left_press_spec() {
            law_title_screen_logic_leaves_once(inputs.drop_first());
        }
    }
}

impl TitleScreenLogic {
    /// The scripted title screen with its defaults.
    pub fn new() -> (s: TitleScreenLogic)
        ensures
            s.main_menu_scene_path@ == Seq::<char>::empty(),
            s.background_image_path@ == default_menu_background(),
            s.prompt_text@ == default_prompt(),
            !s.transitioning,
    {
        TitleScreenLogic {
            main_menu_scene_path: String::new(),
            background_image_path: default_menu_background_path(),
            prompt_text: default_prompt_text(),
            transitioning: false,
        }
    }

    /// Sets the three texts from the owner's exported properties.
    pub fn configure(
        &mut self,
        main_menu_scene_path: String,
        background_image_path: String,
        prompt_text: String,
    )
        ensures
            final(self).main_menu_scene_path == main_menu_scene_path,
            final(self).background_image_path == background_image_path,
            final(self).prompt_text == prompt_text,
            final(self).transitioning == old(self).transitioning,
    {
        self.main_menu_scene_path = main_menu_scene_path;
        self.background_image_path = background_image_path;
        self.prompt_text = prompt_text;
    }

    /// Resolves the main-menu path: own, else the non-nil `AppConfig` value,
    /// else empty.
    pub fn resolve_main_menu_scene_path(&self, app_config: Option<String>) -> (r: String)
        ensures
            r@ == resolved_scene_path(
                self.main_menu_scene_path@,
                app_config.deep_view(),
                Seq::empty(),
            ),
    {
        proof {
            reveal_strlit("");
        }
        resolve_scene_path(self.main_menu_scene_path.as_str(), app_config, "")
    }

    /// Handles an unhandled input event of the owner: a left click, when no
    /// transition is under way, starts one towards the resolved target.
    pub fn on_unhandled_input(
        &mut self,
        event: &InputSummary,
        app_config: Option<String>,
        scene_loader_present: bool,
        in_tree: bool,
    ) -> (r: MenuTransition)
        ensures
            r.kind == logic_kind(
                old(self).transitioning,
                event.is_left_press_spec(),
                scene_loader_present,
                in_tree,
            ),
            final(self).transitioning == logic_transitioning_after(
                old(self).transitioning,
                event.is_left_press_spec(),
            ),
            old(self).transitioning || !event.is_left_press_spec() ==> r.kind
                == TransitionKind::Stay && final(self).transitioning == old(self).transitioning,
            !old(self).transitioning && event.is_left_press_spec() ==> {
                &&& final(self).transitioning
                &&& r.kind == (if scene_loader_present {
                    TransitionKind::LoadWithSceneLoader
                } else if in_tree {
                    TransitionKind::ChangeSceneToFile
                } else {
                    TransitionKind::Stay
                })
                &&& r.kind != TransitionKind::Stay ==> r.target@ == logic_target(
                    old(self).main_menu_scene_path@,
                    app_config.deep_view(),
                )
            },
            final(self).main_menu_scene_path == old(self).main_menu_scene_path,
            final(self).background_image_path == old(self).background_image_path,
            final(self).prompt_text == old(self).prompt_text,
    {
        if self.transitioning || !event.is_left_press() {
            return MenuTransition { kind: TransitionKind::Stay, target: String::new() };
        }
        self.transitioning = true;
        let mut target = self.resolve_main_menu_scene_path(app_config);
        if target.as_str().is_empty() {
            target = default_main_menu_scene_path();
        }
        if scene_loader_present {
            MenuTransition { kind: TransitionKind::LoadWithSceneLoader, target }
        } else if in_tree {
            MenuTransition { kind: TransitionKind::ChangeSceneToFile, target }
        } else {
            MenuTransition { kind: TransitionKind::Stay, target: String::new() }
        }
    }
}

/// The title screen's target: its own path whenever that is set, whatever
/// `AppConfig` says; otherwise `AppConfig`'s value when that autoload exists;
/// otherwise the animated main menu.
pub proof fn law_title_screen_target(screen: TitleScreen, app_config: Option<Seq<char>>)
    ensures
        screen.main_menu_scene_path@.len() > 0 ==> screen.target_spec(app_config)
            == screen.main_menu_scene_path@,
        screen.main_menu_scene_path@.len() == 0 && app_config is Some ==> screen.target_spec(
            app_config,
        ) == app_config->0,
        screen.main_menu_scene_path@.len() == 0 && app_config is None ==> screen.target_spec(
            app_config,
        ) == "res://scenes/menus/main_menu/main_menu_with_animations.tscn"@,
{
}

/// The scripted title screen's target: its own path whenever that is set,
/// whatever `AppConfig` says; otherwise a non-empty `AppConfig` value;
/// otherwise the animated main menu. It is never empty.
pub proof fn law_title_screen_logic_target(own: Seq<char>, app_config: Option<Seq<char>>)
    ensures
        own.len() > 0 ==> logic_target(own, app_config) == own,
        own.len() == 0 && app_config is Some && app_config->0.len() > 0 ==> logic_target(
            own,
            app_config,
        ) == app_config->0,
        own.len() == 0 && (app_config is None || app_config->0.len() == 0) ==> logic_target(
            own,
            app_config,
        ) == "res://scenes/menus/main_menu/main_menu_with_animations.tscn"@,
        logic_target(own, app_config).len() > 0,
{
    reveal_strlit("res://scenes/menus/main_menu/main_menu_with_animations.tscn");
}

} // verus!
