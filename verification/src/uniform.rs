//! Shader uniforms: a name, looked up once in the current program, and the
//! values set at the location found.

use vstd::prelude::*;
use std::marker::PhantomData;
use crate::commands::Command;
use crate::types::Vector2i;

verus! {

/// A uniform of type `T` in the current program.
pub struct Uniform<T> {
    name: String,
    location: i32,
    phantom: PhantomData<T>,
}

/// The location a uniform has after a lookup: one already found stays;
/// else, without a current program there is none, and with one it is what
/// the program answered.
pub open spec fn resolved(location: i32, program: u32, found: i32) -> i32 {
    if location >= 0 {
        location
    } else if program == 0 {
        -1i32
    } else {
        found
    }
}

impl<T> Uniform<T> {
    pub closed spec fn name(&self) -> Seq<char> {
        self.name@
    }

    /// The location in the program; negative while unknown.
    pub closed spec fn location(&self) -> i32 {
        self.location
    }

    /// A uniform called `name`, its location not looked up yet.
    pub fn new(name: &str) -> (uniform: Uniform<T>)
        ensures
            uniform.name() == name@,
            uniform.location() == -1,
    {
        Uniform { name: name.to_string(), location: -1, phantom: PhantomData }
    }

    pub fn get_name(&self) -> (name: &String)
        ensures
            name@ == self.name(),
    {
        &self.name
    }

    /// Whether the location still has to be looked up.
    pub fn needs_location(&self) -> (needed: bool)
        ensures
            needed == (self.location() < 0),
    {
        self.location < 0
    }

    /// The location of the uniform. While it is unknown, it is taken from
    /// a lookup: `program` is the current program, 0 for none, and `found`
    /// the location that program gave for the name.
    pub fn get_location(&mut self, program: u32, found: i32) -> (location: i32)
        ensures
            location == resolved(old(self).location(), program, found),
            final(self).location() == location,
            final(self).name() == old(self).name(),
    {
        if self.location < 0 {
            self.location = if program == 0 {
                -1
            } else {
                found
            };
        }
        self.location
    }
}

/// The commands that set a whole-number uniform: one if its location is
/// known, none if not.
pub open spec fn set_1i(location: i32, value: i32) -> Seq<Command> {
    if location >= 0 {
        seq![Command::Uniform1i { location, value }]
    } else {
        seq![]
    }
}

/// The commands that set a uniform pair of whole numbers: one if its
/// location is known, none if not.
pub open spec fn set_2i(location: i32, value: Vector2i) -> Seq<Command> {
    if location >= 0 {
        seq![Command::Uniform2i { location, first: value.x, second: value.y }]
    } else {
        seq![]
    }
}

/// Setting a whole-number uniform.
pub trait Uniform1i {
    /// The location at which the value is set; negative while unknown.
    spec fn slot(&self) -> i32;

    fn set(&mut self, queue: &mut Vec<Command>, value: i32)
        ensures
            final(self).slot() == old(self).slot(),
            final(queue)@ == old(queue)@ + set_1i(old(self).slot(), value),
    ;
}

impl Uniform1i for Uniform<i32> {
    open spec fn slot(&self) -> i32 {
        self.location()
    }

    fn set(&mut self, queue: &mut Vec<Command>, value: i32) {
        let location = self.location;
        if location >= 0 {
            queue.push(Command::Uniform1i { location, value });
        }
        assert(final(queue)@ =~= old(queue)@ + set_1i(old(self).slot(), value));
    }
}

/// Setting a uniform pair of whole numbers.
pub trait Uniform2i {
    /// The location at which the value is set; negative while unknown.
    spec fn slot(&self) -> i32;

    fn set(&mut self, queue: &mut Vec<Command>, value: Vector2i)
        ensures
            final(self).slot() == old(self).slot(),
            final(queue)@ == old(queue)@ + set_2i(old(self).slot(), value),
    ;
}

impl Uniform2i for Uniform<Vector2i> {
    open spec fn slot(&self) -> i32 {
        self.location()
    }

    fn set(&mut self, queue: &mut Vec<Command>, value: Vector2i) {
        let location = self.location;
        if location >= 0 {
            queue.push(Command::Uniform2i { location, first: value.x, second: value.y });
        }
        assert(final(queue)@ =~= old(queue)@ + set_2i(old(self).slot(), value));
    }
}

} // verus!
