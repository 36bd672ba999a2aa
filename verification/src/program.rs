//! Shader programs: linking shaders into a program and releasing it.

use vstd::prelude::*;
use crate::commands::Command;
use crate::shader::Shader;

verus! {

/// The commands that attach each of `shaders` to `program`, in order.
pub open spec fn attach_commands(program: u32, shaders: Seq<Shader>) -> Seq<Command> {
    Seq::new(
        shaders.len(),
        |i: int| Command::AttachShader { program, shader: shaders[i].handle() },
    )
}

/// The commands that detach each of `shaders` from `program`, in order.
pub open spec fn detach_commands(program: u32, shaders: Seq<Shader>) -> Seq<Command> {
    Seq::new(
        shaders.len(),
        |i: int| Command::DetachShader { program, shader: shaders[i].handle() },
    )
}

/// A linked shader program.
#[derive(Debug)]
pub struct Program {
    id: u32,
}

impl Program {
    /// The native handle; 0 once released.
    pub closed spec fn handle(&self) -> u32 {
        self.id
    }

    /// Asks for `shaders` to be attached to the program with native handle
    /// `id` and for the program to be linked.
    pub fn link(queue: &mut Vec<Command>, id: u32, shaders: &Vec<Shader>)
        ensures
            final(queue)@ == old(queue)@ + attach_commands(id, shaders@).push(
                Command::LinkProgram { id },
            ),
    {
        let mut i: usize = 0;
        while i < shaders.len()
            invariant
                i <= shaders@.len(),
                queue@ == old(queue)@ + attach_commands(id, shaders@.subrange(0, i as int)),
            decreases shaders@.len() - i,
        {
            queue.push(Command::AttachShader { program: id, shader: shaders[i].id() });
            assert(queue@ =~= old(queue)@ + attach_commands(id, shaders@.subrange(0, i + 1)));
            i += 1;
        }
        assert(shaders@.subrange(0, i as int) =~= shaders@);
        queue.push(Command::LinkProgram { id });
        assert(final(queue)@ =~= old(queue)@ + attach_commands(id, shaders@).push(
            Command::LinkProgram { id },
        ));
    }

    /// The program with native handle `id`, once the graphics API has
    /// tried to link it: `linked` holds the API's log if it failed. After a
    /// successful link the shaders are detached again; after a failed one
    /// the log is reported and nothing is asked of the API.
    pub fn new(
        queue: &mut Vec<Command>,
        id: u32,
        shaders: &Vec<Shader>,
        linked: Result<(), String>,
    ) -> (result: Result<Program, String>)
        ensures
            result is Ok <==> linked is Ok,
            result is Ok ==> result->Ok_0.handle() == id && final(queue)@ == old(queue)@
                + detach_commands(id, shaders@),
            result is Err ==> result->Err_0@ == linked->Err_0@ && final(queue)@ == old(queue)@,
    {
        match linked {
            Err(log) => Err(log),
            Ok(_) => {
                let mut i: usize = 0;
                while i < shaders.len()
                    invariant
                        i <= shaders@.len(),
                        queue@ == old(queue)@ + detach_commands(
                            id,
                            shaders@.subrange(0, i as int),
                        ),
                    decreases shaders@.len() - i,
                {
                    queue.push(Command::DetachShader { program: id, shader: shaders[i].id() });
                    assert(queue@ =~= old(queue)@ + detach_commands(
                        id,
                        shaders@.subrange(0, i + 1),
                    ));
                    i += 1;
                }
                assert(shaders@.subrange(0, i as int) =~= shaders@);
                Ok(Program { id })
            },
        }
    }

    pub fn id(&self) -> (id: u32)
        ensures
            id == self.handle(),
    {
        self.id
    }

    /// Makes the program current.
    pub fn use_program(&self, queue: &mut Vec<Command>)
        ensures
            final(queue)@ == old(queue)@.push(Command::UseProgram { id: self.handle() }),
    {
        queue.push(Command::UseProgram { id: self.id });
    }

    /// Releases the native handle; a no-op on a program already released.
    pub fn free(&mut self, queue: &mut Vec<Command>)
        ensures
            final(self).handle() == 0,
            old(self).handle() != 0 ==> final(queue)@ == old(queue)@.push(
                Command::DeleteProgram { id: old(self).handle() },
            ),
            old(self).handle() == 0 ==> final(queue)@ == old(queue)@,
    {
        if self.id != 0 {
            queue.push(Command::DeleteProgram { id: self.id });
            self.id = 0;
        }
    }
}

} // verus!
