//! The main menu: a two-entry list (start, quit), a cursor toggled by the
//! up/down keys, and the select key that either starts loading the world or
//! asks the host to exit.

use vstd::prelude::*;

use crate::asset_loading::{AssetHandle, AssetHandler};
use crate::assets::GameAssets;
use crate::audio::SFXEvents;
use crate::utils::GameState;

verus! {

broadcast use vstd::string::to_string_from_display_ensures_for_str;

pub struct MainMenuPlugin;

/// A menu entry's place in the selection order.
#[derive(Clone, Copy, PartialEq, Eq, Structural, Debug)]
pub struct Selectables {
    pub key: usize,
}

/// The cursor over the menu entries.
#[derive(Clone, Copy, PartialEq, Eq, Structural, Debug)]
pub struct CurrentSelection {
    pub index: usize,
}

/// Tag of a selectable menu entry.
#[derive(Clone, Copy, PartialEq, Eq, Structural, Debug)]
pub struct MenuButton;

/// Tag of the arrow that points at the selected entry.
#[derive(Clone, Copy, PartialEq, Eq, Structural, Debug)]
pub struct MenuSelector;

#[derive(Clone, Copy, PartialEq, Eq, Structural, Debug)]
pub enum NavigationEvent {
    Up,
    Down,
    Select,
}

/// The colours menu text shows.
#[derive(Clone, Copy, PartialEq, Eq, Structural, Debug)]
pub enum MenuColor {
    White,
    Red,
}

#[derive(Clone, Copy, PartialEq, Eq, Structural, Debug)]
pub struct TextColor {
    pub color: MenuColor,
}

impl Default for TextColor {
    fn default() -> (r: TextColor)
        ensures
            r.color == MenuColor::White,
    {
        TextColor { color: MenuColor::White }
    }
}

/// One menu entry: its label, font, colour and selection key.
#[derive(Debug)]
pub struct MenuBundle {
    pub text: String,
    pub font: AssetHandle,
    pub color: TextColor,
    pub selectable: Selectables,
}

impl MenuBundle {
    pub fn new(text: &str, index: usize, font: AssetHandle, text_color: TextColor)
        -> (m: MenuBundle)
        ensures
            m.text@ == text@,
            m.font == font,
            m.color == text_color,
            m.selectable.key == index,
    {
        MenuBundle { text: text.to_string(), font, color: text_color, selectable: Selectables {
            key: index,
        } }
    }
}

/// The menu's edge-triggered key presses for one frame.
#[derive(Clone, Copy, PartialEq, Eq, Structural, Debug)]
pub struct MenuInput {
    pub up_just_pressed: bool,
    pub down_just_pressed: bool,
    pub select_just_pressed: bool,
}

/// Queue the menu's font, arrow image and blip sound.
pub fn load(asset_handler: &mut AssetHandler, game_assets: &mut GameAssets)
    requires
        old(asset_handler).next_handle + 3 < usize::MAX,
    ensures
        final(game_assets).menu_font.id == old(asset_handler).next_handle,
        final(game_assets).menu_arrow.id == old(asset_handler).next_handle + 1,
        final(game_assets).menu_sfx.id == old(asset_handler).next_handle + 2,
        final(asset_handler).next_handle == old(asset_handler).next_handle + 3,
        final(asset_handler).asset_loading.queued().len()
            == old(asset_handler).asset_loading.queued().len() + 3,
        final(asset_handler).state == old(asset_handler).state,
        final(asset_handler).next_state == old(asset_handler).next_state,
        *final(game_assets) == (GameAssets {
            menu_font: final(game_assets).menu_font,
            menu_arrow: final(game_assets).menu_arrow,
            menu_sfx: final(game_assets).menu_sfx,
            ..*old(game_assets)
        }),
{
    asset_handler.add_font(
        &mut game_assets.menu_font,
        "ui/shadow-dancer-the-secret-of-shinobi-smd.ttf",
    );
    asset_handler.add_sprites(&mut game_assets.menu_arrow, "ui/menu_arrow.png");
    asset_handler.add_audio(&mut game_assets.menu_sfx, "ui/menu_sfx.ogg");
}

/// Put up the menu: the start and quit entries in white, in selection
/// order.
pub fn main_menu_setup(game_assets: &GameAssets) -> (items: Vec<MenuBundle>)
    ensures
        items@.len() == 2,
        items@[0].text@ == "Start"@,
        items@[0].selectable.key == 0,
        items@[0].font == game_assets.menu_font,
        items@[0].color.color is White,
        items@[1].text@ == "Quit"@,
        items@[1].selectable.key == 1,
        items@[1].font == game_assets.menu_font,
        items@[1].color.color is White,
{
    let mut items: Vec<MenuBundle> = Vec::new();
    items.push(MenuBundle::new("Start", 0, game_assets.menu_font, TextColor::default()));
    items.push(MenuBundle::new("Quit", 1, game_assets.menu_font, TextColor::default()));
    items
}

/// Translate the frame's key presses into at most one navigation event,
/// down before up before select, with the menu blip recorded alongside.
pub fn keyboard_input_system(
    input: &MenuInput,
    nv_events: &mut Vec<NavigationEvent>,
    sfx_events: &mut Vec<SFXEvents>,
)
    ensures
        input.down_just_pressed ==> {
            &&& final(nv_events)@ == old(nv_events)@.push(NavigationEvent::Down)
            &&& final(sfx_events)@ == old(sfx_events)@.push(SFXEvents::MenuSFX)
        },
        !input.down_just_pressed && input.up_just_pressed ==> {
            &&& final(nv_events)@ == old(nv_events)@.push(NavigationEvent::Up)
            &&& final(sfx_events)@ == old(sfx_events)@.push(SFXEvents::MenuSFX)
        },
        !input.down_just_pressed && !input.up_just_pressed && input.select_just_pressed ==> {
            &&& final(nv_events)@ == old(nv_events)@.push(NavigationEvent::Select)
            &&& final(sfx_events)@ == old(sfx_events)@.push(SFXEvents::MenuSFX)
        },
        !input.down_just_pressed && !input.up_just_pressed && !input.select_just_pressed ==> {
            &&& final(nv_events)@ == old(nv_events)@
            &&& final(sfx_events)@ == old(sfx_events)@
        },
{
    if input.down_just_pressed {
        nv_events.push(NavigationEvent::Down);
        sfx_events.push(SFXEvents::MenuSFX);
    } else if input.up_just_pressed {
        nv_events.push(NavigationEvent::Up);
        sfx_events.push(SFXEvents::MenuSFX);
    } else if input.select_just_pressed {
        nv_events.push(NavigationEvent::Select);
        sfx_events.push(SFXEvents::MenuSFX);
    }
}

/// Paint the selected entry red and the rest white; the selector arrow ends
/// up attached to the last entry whose key matches the cursor.
pub fn handle_current_selection(
    items: &mut Vec<MenuBundle>,
    current: &CurrentSelection,
) -> (selector_parent: Option<usize>)
    ensures
        final(items)@.len() == old(items)@.len(),
        forall|i: int| 0 <= i < old(items)@.len() ==> {
            &&& (#[trigger] final(items)@[i]).text == old(items)@[i].text
            &&& final(items)@[i].font == old(items)@[i].font
            &&& final(items)@[i].selectable == old(items)@[i].selectable
            &&& final(items)@[i].color.color == if old(items)@[i].selectable.key == current.index {
                MenuColor::Red
            } else {
                MenuColor::White
            }
        },
        selector_parent matches Some(j) ==> {
            &&& 0 <= j < old(items)@.len()
            &&& old(items)@[j as int].selectable.key == current.index
            &&& forall|k: int| j < k < old(items)@.len()
                ==> (#[trigger] old(items)@[k]).selectable.key != current.index
        },
        selector_parent is None ==> forall|k: int| 0 <= k < old(items)@.len()
            ==> (#[trigger] old(items)@[k]).selectable.key != current.index,
{
    let ghost orig = items@;
    let mut selector_parent: Option<usize> = None;
    let mut i: usize = 0;
    while i < items.len()
        invariant
            i <= items@.len(),
            items@.len() == orig.len(),
            forall|j: int| i <= j < orig.len() ==> #[trigger] items@[j] == orig[j],
            forall|j: int| 0 <= j < i ==> {
                &&& (#[trigger] items@[j]).text == orig[j].text
                &&& items@[j].font == orig[j].font
                &&& items@[j].selectable == orig[j].selectable
                &&& items@[j].color.color == if orig[j].selectable.key == current.index {
                    MenuColor::Red
                } else {
                    MenuColor::White
                }
            },
            selector_parent matches Some(j) ==> {
                &&& 0 <= j < i
                &&& orig[j as int].selectable.key == current.index
                &&& forall|k: int| j < k < i
                    ==> (#[trigger] orig[k]).selectable.key != current.index
            },
            selector_parent is None ==> forall|k: int| 0 <= k < i
                ==> (#[trigger] orig[k]).selectable.key != current.index,
        decreases items@.len() - i,
    {
        let ghost before = items@;
        let selected = items[i].selectable.key == current.index;
        let mut item = items.remove(i);
        if selected {
            item.color.color = MenuColor::Red;
            selector_parent = Some(i);
        } else {
            item.color.color = MenuColor::White;
        }
        items.insert(i, item);
        proof {
            assert(items@ =~= before.update(i as int, items@[i as int]));
        }
        i = i + 1;
    }
    selector_parent
}

/// The cursor, start request and exit request after one navigation event.
/// Up and down both toggle the cursor between the two entries; select on
/// the first entry asks to start the world, on the second to exit (moving
/// the cursor back to the first).
pub open spec fn spec_nav_step(state: (int, bool, bool), e: NavigationEvent) -> (int, bool, bool) {
    match e {
        NavigationEvent::Up | NavigationEvent::Down => (
            if state.0 == 0 {
                1int
            } else if state.0 == 1 {
                0int
            } else {
                state.0
            },
            state.1,
            state.2,
        ),
        NavigationEvent::Select => if state.0 == 0 {
            (state.0, true, state.2)
        } else if state.0 == 1 {
            (0int, state.1, true)
        } else {
            state
        },
    }
}

/// The cursor, start request and exit request after a run of events.
pub open spec fn spec_nav_fold(idx: int, events: Seq<NavigationEvent>) -> (int, bool, bool)
    decreases events.len(),
{
    if events.len() == 0 {
        (idx, false, false)
    } else {
        spec_nav_step(spec_nav_fold(idx, events.drop_last()), events.last())
    }
}

/// Apply the frame's navigation events: toggle the cursor, start loading
/// the world on a start request, and raise the exit flag on a quit request.
pub fn navigate_menu(
    events: &Vec<NavigationEvent>,
    current: &mut CurrentSelection,
    asset_handler: &mut AssetHandler,
    game_assets: &mut GameAssets,
    app_exit: &mut bool,
)
    requires
        old(asset_handler).next_handle + 19 * (events@.len() + 1) < usize::MAX,
    ensures
        ({
            let folded = spec_nav_fold(old(current).index as int, events@);
            &&& final(current).index == folded.0
            &&& *final(app_exit) == (*old(app_exit) || folded.2)
            &&& folded.1 ==> final(asset_handler).state == GameState::Loading
                && final(asset_handler).next_state.state == GameState::LoadWorld
            &&& !folded.1 ==> *final(asset_handler) == *old(asset_handler)
                && *final(game_assets) == *old(game_assets)
        }),
{
    let ghost idx0 = current.index as int;
    let ghost h0 = *asset_handler;
    let ghost a0 = *game_assets;
    let ghost exit0 = *app_exit;
    let mut i: usize = 0;
    while i < events.len()
        invariant
            i <= events@.len(),
            h0.next_handle + 19 * (events@.len() + 1) < usize::MAX,
            ({
                let folded = spec_nav_fold(idx0, events@.take(i as int));
                &&& current.index == folded.0
                &&& *app_exit == (exit0 || folded.2)
                &&& folded.1 ==> asset_handler.state == GameState::Loading
                    && asset_handler.next_state.state == GameState::LoadWorld
                    && asset_handler.next_handle <= h0.next_handle + 19 * i
                &&& !folded.1 ==> *asset_handler == h0 && *game_assets == a0
            }),
        decreases events@.len() - i,
    {
        proof {
            assert(events@.take(i + 1).drop_last() =~= events@.take(i as int));
            assert(events@.take(i + 1).last() == events@[i as int]);
        }
        let ghost folded_pre = spec_nav_fold(idx0, events@.take(i as int));
        match events[i] {
            NavigationEvent::Up | NavigationEvent::Down => {
                if current.index == 0 {
                    current.index = 1;
                } else if current.index == 1 {
                    current.index = 0;
                }
            }
            NavigationEvent::Select => {
                if current.index == 0 {
                    asset_handler.load(GameState::LoadWorld, game_assets);
                } else if current.index == 1 {
                    *app_exit = true;
                    current.index = current.index - 1;
                }
            }
        }
        i = i + 1;
    }
    proof {
        assert(events@.take(events@.len() as int) =~= events@);
    }
}

} // verus!
