use vstd::prelude::*;

use crate::game::Transition;
use crate::render::RenderCmd;

verus! {

/// Which of the losing screen's keys are held down during one tick.
#[derive(PartialEq, Eq, Structural, Clone, Copy, Debug)]
pub struct LoseInput {
    pub yes: bool,
    pub no: bool,
    pub quit: bool,
}

/// The screen shown after death: a snapshot of the final score and a replay
/// prompt, independent of the session it came from.
#[derive(PartialEq, Eq, Structural, Clone, Copy, Debug)]
pub struct LoseState {
    pub score: u32,
}

impl LoseState {
    pub fn new(score: u32) -> (s: LoseState)
        ensures
            s.score == score,
    {
        LoseState { score }
    }

    /// One tick of the losing screen: the replay key starts a fresh session
    /// in place of everything (and wins over the others, being checked
    /// first); the refusal and quit keys end the program; any other tick
    /// changes nothing.
    pub fn update(&self, input: LoseInput) -> (t: Transition)
        ensures
            t == (if input.yes {
                Transition::ReplaceWithNewGame
            } else if input.no || input.quit {
                Transition::Quit
            } else {
                Transition::Continue
            }),
    {
        if input.yes {
            return Transition::ReplaceWithNewGame;
        }
        if input.no || input.quit {
            return Transition::Quit;
        }
        Transition::Continue
    }

    /// Everything the losing screen shows, in drawing order: the death notice
    /// with the final score, then the replay prompt on the line below.
    pub fn render_commands(&self) -> (cmds: Vec<RenderCmd>)
        ensures
            cmds@.len() == 2,
            cmds@[0] == (RenderCmd::DeathLine { score: self.score }),
            cmds@[1] == RenderCmd::PromptLine,
    {
        let mut cmds: Vec<RenderCmd> = Vec::new();
        cmds.push(RenderCmd::DeathLine { score: self.score });
        cmds.push(RenderCmd::PromptLine);
        cmds
    }
}

} // verus!
