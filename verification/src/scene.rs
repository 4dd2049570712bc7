use vstd::prelude::*;
use crate::graphics::{CanDrawSprite, CanDrawText};
use crate::input::CanManageInput;
use crate::musics::CanPlayMusic;
use crate::scene_game_over::SceneGameOver;
use crate::scene_menu::SceneMenu;
use crate::scene_world::SceneWorld;

verus! {

/// The tagged union of the game's scenes; exactly one is alive at a time.
pub enum SceneEnum {
    SceneMenu(SceneMenu),
    SceneWorld(SceneWorld),
    SceneGameOver(SceneGameOver),
}

/// Owns the single active scene and applies the transition its frame
/// hands back, releasing the previous scene.
pub struct SceneManager {
    pub current: SceneEnum,
}

impl SceneManager {
    /// A live world's state keeps its invariant; the other scenes carry
    /// no constrained state.
    pub open spec fn wf(self) -> bool {
        match self.current {
            SceneEnum::SceneWorld(w) => w.data.wf(),
            _ => true,
        }
    }

    /// The game starts on the menu.
    pub fn new() -> (r: SceneManager)
        ensures
            r.wf(),
            r.current matches SceneEnum::SceneMenu(m) && !m.data.is_init && m.data.panel_draw,
    {
        SceneManager { current: SceneEnum::SceneMenu(SceneMenu::new()) }
    }

    /// One frame: dispatch to the active scene and, when it hands back a
    /// successor, replace the active scene with it.  The reachable
    /// transitions are exactly those of the scene machine: the menu can
    /// only start level one, a world can only renew itself one level up or
    /// end in a game over carrying its own level count, and a game over
    /// can only go back to the menu.
    pub fn update_scene<S: CanDrawSprite, T: CanDrawText, I: CanManageInput, M: CanPlayMusic>(
        &mut self,
        dt: u32,
        sprite_service: &mut S,
        text_service: &mut T,
        input_service: &I,
        music_service: &M,
    )
        requires
            old(self).wf(),
        ensures
            final(self).wf(),
            ({
                let before = old(self).current;
                let after = final(self).current;
                &&& before is SceneMenu ==> (after is SceneMenu || (after matches
                    SceneEnum::SceneWorld(w) && w.data.compteur_de_monde_genere == 1
                    && !w.data.is_init))
                &&& before matches SceneEnum::SceneWorld(w0) ==> ((after matches
                    SceneEnum::SceneWorld(w1) && (w1.data.compteur_de_monde_genere
                    == w0.data.compteur_de_monde_genere || w1.data.compteur_de_monde_genere
                    == w0.data.compteur_de_monde_genere + 1)) || (after matches
                    SceneEnum::SceneGameOver(g) && g.data.nb_monde_decouvert
                    == w0.data.compteur_de_monde_genere))
                &&& before is SceneGameOver ==> (after is SceneGameOver || after is SceneMenu)
                &&& before matches SceneEnum::SceneMenu(m0) ==> (after matches
                    SceneEnum::SceneMenu(m1) ==> (m1.data.is_init && (m1.data.panel_draw
                    ==> m0.data.panel_draw)))
                &&& before matches SceneEnum::SceneWorld(w0) ==> (after matches
                    SceneEnum::SceneWorld(w1) ==> (w1.data.compteur_de_monde_genere
                    == w0.data.compteur_de_monde_genere ==> (w1.data.is_init && w1.data.tilemap
                    == w0.data.tilemap && w1.data.vaisseau_a_trouver == w0.data.vaisseau_a_trouver
                    && w1.data.enemies@.len() == w0.data.enemies@.len())))
                &&& before matches SceneEnum::SceneGameOver(g0) ==> (after matches
                    SceneEnum::SceneGameOver(g1) ==> (g1.data.is_init
                    && g1.data.nb_monde_decouvert == g0.data.nb_monde_decouvert))
            }),
    {
        let nouvelle_scene = match &mut self.current {
            SceneEnum::SceneMenu(menu) => menu.on_scene(
                dt,
                sprite_service,
                text_service,
                input_service,
                music_service,
            ),
            SceneEnum::SceneWorld(world) => world.on_scene(
                dt,
                sprite_service,
                text_service,
                input_service,
                music_service,
            ),
            SceneEnum::SceneGameOver(game_over) => game_over.on_scene(
                dt,
                sprite_service,
                text_service,
                input_service,
                music_service,
            ),
        };
        if let Some(x) = nouvelle_scene {
            self.current = x;
        }
    }
}

} // verus!
