use vstd::prelude::*;
use vstd::string::StringExecFns;
use crate::graphics::{CanDrawSprite, CanDrawText, Color};
use crate::input::CanManageInput;
use crate::musics::CanPlayMusic;
use crate::scene::SceneEnum;
use crate::scene_menu::SceneMenu;
use crate::text::decimal_string;

verus! {

/// Mutable state of the game-over scene.
pub struct SceneGameOverData {
    pub is_init: bool,
    pub nb_monde_decouvert: u32,
}

impl SceneGameOverData {
    pub fn new(nb_monde_decouvert: u32) -> (r: SceneGameOverData)
        ensures
            !r.is_init,
            r.nb_monde_decouvert == nb_monde_decouvert,
    {
        SceneGameOverData { is_init: false, nb_monde_decouvert }
    }
}

/// The game-over scene: shows how many worlds the run explored and goes
/// back to the menu on the confirm input.
pub struct SceneGameOver {
    pub data: SceneGameOverData,
}

impl SceneGameOver {
    pub fn new(nb_monde_decouvert: u32) -> (r: SceneGameOver)
        ensures
            !r.data.is_init,
            r.data.nb_monde_decouvert == nb_monde_decouvert,
    {
        SceneGameOver { data: SceneGameOverData::new(nb_monde_decouvert) }
    }

    /// Lazy one-shot initialization: starts the scene's music exactly once.
    fn init_scene<M: CanPlayMusic>(&mut self, music: &M) -> (r: Result<(), String>)
        ensures
            final(self).data.is_init,
            final(self).data.nb_monde_decouvert == old(self).data.nb_monde_decouvert,
            old(self).data.is_init ==> r is Ok,
    {
        if !self.data.is_init {
            self.data.is_init = true;
            music.play("digital-love", 1)
        } else {
            Ok(())
        }
    }

    /// On the confirm input: stop the music and hand back a fresh menu.
    fn change_scene<I: CanManageInput, M: CanPlayMusic>(&self, input: &I, music: &M) -> (r:
        Option<SceneEnum>)
        ensures
            r matches Some(sc) ==> (sc matches SceneEnum::SceneMenu(m) && !m.data.is_init
                && m.data.panel_draw),
    {
        if input.is_key_pressed("Escape") {
            let _ = music.stop();
            Some(SceneEnum::SceneMenu(SceneMenu::new()))
        } else {
            None
        }
    }

    fn draw_text_title<T: CanDrawText>(&self, text_service: &mut T) {
        let _ = text_service.create_text("Game Over", 32, 64, 40, Color::rgb(100, 0, 200));
        let mut line = String::new();
        line.append("explored ");
        line.append(decimal_string(self.data.nb_monde_decouvert).as_str());
        line.append(" worlds");
        let _ = text_service.create_text(line.as_str(), 64, 128, 30, Color::rgb(100, 0, 0));
    }

    fn draw_text_for_change_scene<T: CanDrawText>(&self, text_service: &mut T) {
        let _ = text_service.create_text("[press Escape]", 192, 504, 32, Color::rgb(255, 0, 0));
    }

    /// One frame of the game-over scene: initialize once, evaluate the
    /// transition, then draw.  Drawing failures do not stop the frame.
    pub fn on_scene<S: CanDrawSprite, T: CanDrawText, I: CanManageInput, M: CanPlayMusic>(
        &mut self,
        _dt: u32,
        _sprite_service: &mut S,
        text_service: &mut T,
        input_service: &I,
        music_service: &M,
    ) -> (r: Option<SceneEnum>)
        ensures
            final(self).data.is_init,
            final(self).data.nb_monde_decouvert == old(self).data.nb_monde_decouvert,
            r matches Some(sc) ==> (sc matches SceneEnum::SceneMenu(m) && !m.data.is_init
                && m.data.panel_draw),
    {
        let _ = self.init_scene(music_service);
        let next_scene = self.change_scene(input_service, music_service);
        self.draw_text_title(text_service);
        self.draw_text_for_change_scene(text_service);
        next_scene
    }
}

} // verus!
