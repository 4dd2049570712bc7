use vstd::prelude::*;
use crate::graphics::{CanDrawSprite, CanDrawText, Color};
use crate::input::CanManageInput;
use crate::musics::CanPlayMusic;
use crate::scene::SceneEnum;
use crate::scene_world::{spec_fresh_world, SceneWorld};
use crate::vector2d::Vector2D;

verus! {

/// Mutable state of the menu scene: the one-shot init flag and whether the
/// intro panel is still shown.
pub struct SceneMenuData {
    pub is_init: bool,
    pub panel_draw: bool,
}

/// The title scene: shows the intro panel until it is dismissed, then
/// offers to start a run.
pub struct SceneMenu {
    pub data: SceneMenuData,
}

impl SceneMenu {
    pub fn new() -> (r: SceneMenu)
        ensures
            !r.data.is_init,
            r.data.panel_draw,
    {
        SceneMenu { data: SceneMenuData { is_init: false, panel_draw: true } }
    }

    /// Lazy one-shot initialization: starts the menu music exactly once.
    fn init_scene<M: CanPlayMusic>(&mut self, music: &M) -> (r: Result<(), String>)
        ensures
            final(self).data.is_init,
            final(self).data.panel_draw == old(self).data.panel_draw,
            old(self).data.is_init ==> r is Ok,
    {
        if !self.data.is_init {
            self.data.is_init = true;
            music.play("digital-love", 1)
        } else {
            Ok(())
        }
    }

    /// On the confirm input, once the intro panel has been dismissed: stop
    /// the menu music and start the first world.
    fn change_scene<I: CanManageInput, M: CanPlayMusic>(&self, input: &I, music: &M) -> (r:
        Option<SceneEnum>)
        ensures
            r matches Some(sc) ==> (sc matches SceneEnum::SceneWorld(w) && spec_fresh_world(
                w.data,
                1,
            ) && !self.data.panel_draw),
    {
        if input.is_key_pressed("Space") && !self.data.panel_draw {
            let _ = music.stop();
            let scene_exemple = SceneWorld::new(1);
            Some(SceneEnum::SceneWorld(scene_exemple))
        } else {
            None
        }
    }

    /// The dismiss input hides the intro panel; nothing ever re-shows it.
    pub fn update_panel<I: CanManageInput>(&mut self, input: &I)
        ensures
            final(self).data.is_init == old(self).data.is_init,
            final(self).data.panel_draw ==> old(self).data.panel_draw,
    {
        if input.is_key_pressed("Escape") {
            self.data.panel_draw = false;
        }
    }

    pub fn draw_panel<S: CanDrawSprite, T: CanDrawText>(
        &self,
        sprite_service: &mut S,
        text_service: &mut T,
    ) -> (r: Result<(), String>) {
        sprite_service.draw_sprite(
            "panel",
            Vector2D { x: 32, y: 32 },
            Some(Vector2D { x: 100, y: 100 }),
            Some(Vector2D { x: 736, y: 536 }),
        )?;
        text_service.create_text("Work in progress", 160, 64, 30, Color::rgb(200, 150, 0))?;
        text_service.create_text("in coming :", 96, 128, 25, Color::rgb(200, 150, 0))?;
        text_service.create_text("-> enemie generator", 96, 160, 25, Color::rgb(200, 150, 100))?;
        text_service.create_text("-> weapons", 96, 192, 25, Color::rgb(200, 150, 100))?;
        text_service.create_text("-> random buildings", 96, 224, 25, Color::rgb(200, 150, 100))?;
        text_service.create_text("[Press Escape]", 192, 480, 30, Color::rgb(255, 0, 0))
    }

    pub fn draw_planetes<S: CanDrawSprite>(&self, sprite_service: &mut S) -> (r: Result<
        (),
        String,
    >) {
        sprite_service.draw_sprite(
            "planete_0",
            Vector2D { x: 300, y: 300 },
            Some(Vector2D { x: 1280, y: 1280 }),
            Some(Vector2D { x: 600, y: 600 }),
        )?;
        sprite_service.draw_sprite(
            "planete_2",
            Vector2D { x: 200, y: 100 },
            Some(Vector2D { x: 1280, y: 1280 }),
            Some(Vector2D { x: 100, y: 100 }),
        )?;
        sprite_service.draw_sprite(
            "planete_3",
            Vector2D { x: 500, y: 100 },
            Some(Vector2D { x: 1280, y: 1280 }),
            Some(Vector2D { x: 20, y: 20 }),
        )?;
        sprite_service.draw_sprite(
            "planete_1",
            Vector2D { x: 100, y: 100 },
            Some(Vector2D { x: 1280, y: 1280 }),
            Some(Vector2D { x: 200, y: 200 }),
        )
    }

    pub fn draw_text_title<T: CanDrawText>(&self, text_service: &mut T) {
        let _ = text_service.create_text("Axesporen", 32, 64, 40, Color::rgb(100, 0, 200));
    }

    pub fn draw_text_for_change_scene<T: CanDrawText>(&self, text_service: &mut T) {
        let _ = text_service.create_text("[press space]", 192, 504, 32, Color::rgb(255, 0, 0));
    }

    /// One frame of the menu: initialize once, evaluate the transition with
    /// the panel state the frame began with, update the panel, then draw.
    pub fn on_scene<S: CanDrawSprite, T: CanDrawText, I: CanManageInput, M: CanPlayMusic>(
        &mut self,
        _dt: u32,
        sprite_service: &mut S,
        text_service: &mut T,
        input_service: &I,
        music_service: &M,
    ) -> (r: Option<SceneEnum>)
        ensures
            final(self).data.is_init,
            final(self).data.panel_draw ==> old(self).data.panel_draw,
            r matches Some(sc) ==> (sc matches SceneEnum::SceneWorld(w) && spec_fresh_world(
                w.data,
                1,
            ) && !old(self).data.panel_draw),
    {
        let _ = self.init_scene(music_service);
        let next_scene = self.change_scene(input_service, music_service);
        self.update_panel(input_service);
        let _ = self.draw_planetes(sprite_service);
        if self.data.panel_draw {
            let _ = self.draw_panel(sprite_service, text_service);
        } else {
            self.draw_text_title(text_service);
            self.draw_text_for_change_scene(text_service);
        }
        next_scene
    }
}

} // verus!
