use vstd::prelude::*;

use std::collections::VecDeque;

use crate::board::wrap_coord;
use crate::board::BOARD_HEIGHT;
use crate::board::BOARD_WIDTH;
use crate::geometry::Vector2;
use crate::render::GlyphColor;
use crate::render::RenderCmd;

verus! {

/// One trailing segment of the snake's body.
#[derive(PartialEq, Eq, Structural, Clone, Copy, Debug)]
pub struct BodySegment {
    pub location: Vector2,
}

impl BodySegment {
    pub fn new(x: i32, y: i32) -> (s: BodySegment)
        ensures
            s.location == (Vector2 { x: x, y: y }),
    {
        BodySegment { location: Vector2::new(x, y) }
    }

    /// The single drawing order for one body segment.
    pub fn draw_command(&self) -> (cmd: RenderCmd)
        ensures
            cmd == (RenderCmd::Pixel {
                x: self.location.x,
                y: self.location.y,
                glyph: '#',
                color: GlyphColor::Green,
            }),
    {
        RenderCmd::Pixel { x: self.location.x, y: self.location.y, glyph: '#', color: GlyphColor::Green }
    }
}

/// The mathematical picture of a snake: the head's position and velocity, the
/// recorded position the head left last tick, and the chain of body segment
/// positions, front of the chain (closest to the head) first.
#[verifier::ext_equal]
pub ghost struct SnakeModel {
    pub location: Vector2,
    pub previous_location: Option<Vector2>,
    pub velocity: Vector2,
    pub body: Seq<Vector2>,
}

impl SnakeModel {
    /// A snake whose body is nonempty always knows where its head last stood:
    /// segments only appear through growth, which needs that position.
    pub open spec fn wf(self) -> bool {
        self.body.len() > 0 ==> self.previous_location is Some
    }

    /// The snake moves only while its velocity is nonzero.
    pub open spec fn moving(self) -> bool {
        self.velocity.x != 0 || self.velocity.y != 0
    }

    /// Where the head stands after one step: advanced by the velocity, then
    /// wrapped on each axis independently.
    pub open spec fn stepped_location(self) -> Vector2 {
        Vector2 {
            x: wrap_coord(self.location.x + self.velocity.x, BOARD_WIDTH as int) as i32,
            y: wrap_coord(self.location.y + self.velocity.y, BOARD_HEIGHT as int) as i32,
        }
    }

    /// The snake after growing: with a recorded previous head position a new
    /// segment appears at the front of the chain, exactly there; without one
    /// growing does nothing.
    pub open spec fn grown(self) -> SnakeModel {
        match self.previous_location {
            Some(p) => SnakeModel {
                location: self.location,
                previous_location: self.previous_location,
                velocity: self.velocity,
                body: seq![p] + self.body,
            },
            None => self,
        }
    }

    /// The snake after one movement tick. While moving, the head's old
    /// position is recorded; the head advances and wraps; a nonempty body
    /// rotates: its oldest (last) segment jumps to the front of the chain,
    /// onto the recorded position. With zero velocity the recorded position is
    /// stale and the body stays put.
    pub open spec fn stepped(self) -> SnakeModel {
        let prev = if self.moving() {
            Some(self.location)
        } else {
            self.previous_location
        };
        SnakeModel {
            location: self.stepped_location(),
            previous_location: prev,
            velocity: self.velocity,
            body: if self.body.len() == 0 {
                self.body
            } else {
                match prev {
                    Some(p) => seq![p] + self.body.drop_last(),
                    None => self.body,
                }
            },
        }
    }

    /// The head stands on one of the body's own segments.
    pub open spec fn self_collision(self) -> bool {
        exists|i: int| 0 <= i < self.body.len() && self.body[i] == self.location
    }
}

/// Law: one movement tick wraps each axis asymmetrically, whatever the
/// position and velocity. Past the far edge the head lands on 0; below 0 it
/// lands on the bound itself, not on the cell before it; in between it simply
/// advances.
pub proof fn lemma_head_wraparound(s: SnakeModel)
    ensures
        s.location.x + s.velocity.x > BOARD_WIDTH ==> s.stepped().location.x == 0,
        s.location.x + s.velocity.x < 0 ==> s.stepped().location.x == BOARD_WIDTH,
        0 <= s.location.x + s.velocity.x <= BOARD_WIDTH ==> s.stepped().location.x == s.location.x
            + s.velocity.x,
        s.location.y + s.velocity.y > BOARD_HEIGHT ==> s.stepped().location.y == 0,
        s.location.y + s.velocity.y < 0 ==> s.stepped().location.y == BOARD_HEIGHT,
        0 <= s.location.y + s.velocity.y <= BOARD_HEIGHT ==> s.stepped().location.y == s.location.y
            + s.velocity.y,
{
}

/// Law: growing a snake that has not moved yet changes nothing at all; in
/// particular the body length stays the same.
pub proof fn lemma_grow_unmoved_is_noop(s: SnakeModel)
    requires
        s.previous_location is None,
    ensures
        s.grown() == s,
{
}

/// Law: growing a snake with a recorded previous head position adds exactly
/// one segment, at the front of the chain, standing exactly on that position;
/// the old segments keep their order behind it.
pub proof fn lemma_grow_adds_segment(s: SnakeModel, p: Vector2)
    requires
        s.previous_location == Some(p),
    ensures
        s.grown().body.len() == s.body.len() + 1,
        s.grown().body[0] == p,
        s.grown().body.skip(1) == s.body,
{
    assert(s.grown().body.skip(1) =~= s.body);
}

/// The player-controlled segment chain.
pub struct Snake {
    pub location: Vector2,
    pub previous_location: Option<Vector2>,
    pub velocity: Vector2,
    pub body: VecDeque<BodySegment>,
}

impl View for Snake {
    type V = SnakeModel;

    open spec fn view(&self) -> SnakeModel {
        SnakeModel {
            location: self.location,
            previous_location: self.previous_location,
            velocity: self.velocity,
            body: self.body@.map(|i: int, s: BodySegment| s.location),
        }
    }
}

impl Snake {
    /// A fresh snake: head at the given cell, stationary, with no body yet.
    pub fn new(x: i32, y: i32) -> (s: Snake)
        ensures
            s@ == (SnakeModel {
                location: Vector2 { x: x, y: y },
                previous_location: None::<Vector2>,
                velocity: Vector2 { x: 0, y: 0 },
                body: Seq::<Vector2>::empty(),
            }),
    {
        let s = Snake {
            location: Vector2::new(x, y),
            previous_location: None,
            velocity: Vector2::new(0, 0),
            body: VecDeque::new(),
        };
        proof {
            assert(s@.body =~= Seq::<Vector2>::empty());
            assert(s@ =~= (SnakeModel {
                location: Vector2 { x: x, y: y },
                previous_location: None::<Vector2>,
                velocity: Vector2 { x: 0, y: 0 },
                body: Seq::<Vector2>::empty(),
            }));
        }
        s
    }

    /// Insert a new segment at the front of the chain, at the recorded
    /// previous head position; silently do nothing if the snake has not moved
    /// yet.
    pub fn grow(&mut self)
        ensures
            final(self)@ == old(self)@.grown(),
    {
        if let Some(previous_location) = self.previous_location {
            self.body.push_front(BodySegment::new(previous_location.x, previous_location.y));
            proof {
                assert(self@.body =~= old(self)@.grown().body);
                assert(self@ =~= old(self)@.grown());
            }
        }
    }

    /// One movement tick: record the head's position while moving, advance
    /// and wrap the head, and let a nonempty body follow the leader by moving
    /// its tail segment to the front, onto the recorded position.
    pub fn update(&mut self)
        requires
            old(self)@.wf(),
            i32::MIN <= old(self)@.location.x + old(self)@.velocity.x <= i32::MAX,
            i32::MIN <= old(self)@.location.y + old(self)@.velocity.y <= i32::MAX,
        ensures
            final(self)@ == old(self)@.stepped(),
    {
        if self.velocity.x != 0 || self.velocity.y != 0 {
            self.previous_location = Some(self.location);
        }
        let velocity = self.velocity;
        self.location.add(velocity);
        if self.location.x > BOARD_WIDTH {
            self.location.x = 0;
        }
        if self.location.x < 0 {
            self.location.x = BOARD_WIDTH;
        }
        if self.location.y > BOARD_HEIGHT {
            self.location.y = 0;
        }
        if self.location.y < 0 {
            self.location.y = BOARD_HEIGHT;
        }
        if let Some(mut segment) = self.body.pop_back() {
            let previous_location = self.previous_location.unwrap();
            segment.location.x = previous_location.x;
            segment.location.y = previous_location.y;
            self.body.push_front(segment);
        }
        proof {
            assert(self@.body =~= old(self)@.stepped().body);
            assert(self@ =~= old(self)@.stepped());
        }
    }

    /// The drawing orders for the whole snake: the head glyph first, then one
    /// glyph per body segment, front of the chain first. The glyphs do not
    /// overlap in meaning, so the backend may paint them in any order.
    pub fn draw_commands(&self) -> (cmds: Vec<RenderCmd>)
        ensures
            cmds@.len() == 1 + self@.body.len(),
            cmds@[0] == (RenderCmd::Pixel {
                x: self@.location.x,
                y: self@.location.y,
                glyph: '@',
                color: GlyphColor::DarkGreen,
            }),
            forall|i: int| 0 <= i < self@.body.len() ==> cmds@[i + 1] == (RenderCmd::Pixel {
                x: self@.body[i].x,
                y: self@.body[i].y,
                glyph: '#',
                color: GlyphColor::Green,
            }),
    {
        let mut cmds: Vec<RenderCmd> = Vec::new();
        cmds.push(
            RenderCmd::Pixel {
                x: self.location.x,
                y: self.location.y,
                glyph: '@',
                color: GlyphColor::DarkGreen,
            },
        );
        let mut i: usize = 0;
        while i < self.body.len()
            invariant
                0 <= i <= self@.body.len(),
                cmds@.len() == 1 + i,
                cmds@[0] == (RenderCmd::Pixel {
                    x: self@.location.x,
                    y: self@.location.y,
                    glyph: '@',
                    color: GlyphColor::DarkGreen,
                }),
                forall|j: int| 0 <= j < i ==> cmds@[j + 1] == (RenderCmd::Pixel {
                    x: self@.body[j].x,
                    y: self@.body[j].y,
                    glyph: '#',
                    color: GlyphColor::Green,
                }),
            decreases self@.body.len() - i,
        {
            let cmd = self.body[i].draw_command();
            cmds.push(cmd);
            i = i + 1;
        }
        cmds
    }
}

} // verus!
