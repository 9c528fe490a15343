//! A command history: draw commands are queued, undone and replayed.

use vstd::prelude::*;

verus! {

/// A drawing surface; drawing on it yields the drawn point.
#[derive(Clone, Copy)]
pub struct DrawCanvas {}

impl DrawCanvas {
    /// A fresh canvas.
    pub fn new() -> DrawCanvas {
        DrawCanvas {  }
    }

    /// Draws at the given spot and reports it.
    pub fn draw(&self, x: u32, y: u32) -> (p: (u32, u32))
        ensures
            p == (x, y),
    {
        (x, y)
    }
}

/// A command that draws at one spot of a canvas.
pub struct DrawCommand {
    pub drawable: DrawCanvas,
    pub x: u32,
    pub y: u32,
}

impl DrawCommand {
    /// A command that will draw at `(x, y)`.
    pub fn new(drawable: DrawCanvas, x: u32, y: u32) -> (c: DrawCommand)
        ensures
            c.x == x,
            c.y == y,
    {
        DrawCommand { drawable, x, y }
    }

    /// Runs the command against its canvas.
    pub fn execute(&self) -> (p: (u32, u32))
        ensures
            p == (self.x, self.y),
    {
        self.drawable.draw(self.x, self.y)
    }
}

/// The points a stack of commands draws, in order.
pub open spec fn points_of(commands: Seq<DrawCommand>) -> Seq<(u32, u32)> {
    commands.map_values(|c: DrawCommand| (c.x, c.y))
}

/// A replayable history of draw commands.
pub struct MacroCommand {
    stack: Vec<DrawCommand>,
}

impl MacroCommand {
    /// The recorded commands, oldest first.
    pub closed spec fn commands(&self) -> Seq<DrawCommand> {
        self.stack@
    }

    /// An empty history.
    pub fn new() -> (m: MacroCommand)
        ensures
            m.commands().len() == 0,
    {
        MacroCommand { stack: Vec::new() }
    }

    /// Records one more command.
    pub fn append(&mut self, cmd: DrawCommand)
        ensures
            final(self).commands() == old(self).commands().push(cmd),
    {
        self.stack.push(cmd);
    }

    /// Forgets the most recent command, if any.
    pub fn undo(&mut self)
        ensures
            old(self).commands().len() == 0 ==> final(self).commands() == old(self).commands(),
            old(self).commands().len() > 0 ==> final(self).commands() == old(
                self,
            ).commands().drop_last(),
    {
        let _ = self.stack.pop();
        proof {
            if old(self).commands().len() > 0 {
                assert(self.commands() =~= old(self).commands().drop_last());
            }
        }
    }

    /// Forgets every recorded command.
    pub fn clear(&mut self)
        ensures
            final(self).commands().len() == 0,
    {
        self.stack.clear();
    }

    /// Replays the history and returns the drawn points in order.
    pub fn execute(&self) -> (points: Vec<(u32, u32)>)
        ensures
            points@ == points_of(self.commands()),
    {
        let mut points: Vec<(u32, u32)> = Vec::new();
        let n = self.stack.len();
        let mut i: usize = 0;
        while i < n
            invariant
                n == self.stack.len(),
                i <= n,
                points@ =~= points_of(self.commands().take(i as int)),
            decreases n - i,
        {
            let p = self.stack[i].execute();
            points.push(p);
            proof {
                assert(self.commands().take(i + 1).drop_last() =~= self.commands().take(i as int));
                assert(points@ =~= points_of(self.commands().take(i + 1)));
            }
            i += 1;
        }
        proof {
            assert(self.commands().take(n as int) =~= self.commands());
        }
        points
    }
}

} // verus!
