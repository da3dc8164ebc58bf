//! Shader program handles. A shader records every uniform write requested
//! of it, in order; the platform layer forwards those writes to the linked
//! GPU program. Setting a name the program does not use is a no-op on the
//! GPU side, not an error, so recording never fails.

use vstd::prelude::*;

use crate::math::{Matrix4, Vector3, Vector4};

verus! {

/// A value assigned to a named uniform.
#[derive(Clone, Copy, Debug)]
pub enum UniformValue {
    Mat4(Matrix4),
    Vec3(Vector3),
    Vec4(Vector4),
    Float(i64),
    Int(i32),
    Bool(bool),
}

/// One recorded uniform write.
#[derive(Clone, Debug)]
pub struct UniformWrite {
    pub name: String,
    pub value: UniformValue,
}

/// A handle to a linked GPU shader program, with the ordered record of
/// uniform writes requested since creation.
#[derive(Debug)]
pub struct Shader {
    pub id: u32,
    pub writes: Vec<UniformWrite>,
}

impl Shader {
    /// A handle to the linked program named `id`, with no writes yet.
    pub fn new(id: u32) -> (r: Shader)
        ensures
            r.id == id,
            r.writes@ == Seq::<UniformWrite>::empty(),
    {
        Shader { id, writes: Vec::new() }
    }

    /// Record a matrix uniform write.
    pub fn set_uniform_mat4(&mut self, name: &str, value: Matrix4)
        ensures
            final(self).id == old(self).id,
            final(self).writes@.len() == old(self).writes@.len() + 1,
            final(self).writes@.subrange(0, old(self).writes@.len() as int)
                == old(self).writes@,
            final(self).writes@.last().name@ == name@,
            final(self).writes@.last().value == UniformValue::Mat4(value),
    {
        let w = UniformWrite { name: name.to_owned(), value: UniformValue::Mat4(value) };
        self.writes.push(w);
        proof {
            assert(self.writes@.subrange(0, old(self).writes@.len() as int)
                =~= old(self).writes@);
        }
    }

    /// Record a three-component vector uniform write.
    pub fn set_uniform_vec3(&mut self, name: &str, value: Vector3)
        ensures
            final(self).id == old(self).id,
            final(self).writes@.len() == old(self).writes@.len() + 1,
            final(self).writes@.subrange(0, old(self).writes@.len() as int)
                == old(self).writes@,
            final(self).writes@.last().name@ == name@,
            final(self).writes@.last().value == UniformValue::Vec3(value),
    {
        let w = UniformWrite { name: name.to_owned(), value: UniformValue::Vec3(value) };
        self.writes.push(w);
        proof {
            assert(self.writes@.subrange(0, old(self).writes@.len() as int)
                =~= old(self).writes@);
        }
    }

    /// Record a four-component vector uniform write.
    pub fn set_uniform_vec4(&mut self, name: &str, value: Vector4)
        ensures
            final(self).id == old(self).id,
            final(self).writes@.len() == old(self).writes@.len() + 1,
            final(self).writes@.subrange(0, old(self).writes@.len() as int)
                == old(self).writes@,
            final(self).writes@.last().name@ == name@,
            final(self).writes@.last().value == UniformValue::Vec4(value),
    {
        let w = UniformWrite { name: name.to_owned(), value: UniformValue::Vec4(value) };
        self.writes.push(w);
        proof {
            assert(self.writes@.subrange(0, old(self).writes@.len() as int)
                =~= old(self).writes@);
        }
    }

    /// Record a scalar uniform write (fixed-point).
    pub fn set_uniform_float(&mut self, name: &str, value: i64)
        ensures
            final(self).id == old(self).id,
            final(self).writes@.len() == old(self).writes@.len() + 1,
            final(self).writes@.subrange(0, old(self).writes@.len() as int)
                == old(self).writes@,
            final(self).writes@.last().name@ == name@,
            final(self).writes@.last().value == UniformValue::Float(value),
    {
        let w = UniformWrite { name: name.to_owned(), value: UniformValue::Float(value) };
        self.writes.push(w);
        proof {
            assert(self.writes@.subrange(0, old(self).writes@.len() as int)
                =~= old(self).writes@);
        }
    }

    /// Record an integer uniform write.
    pub fn set_uniform_int(&mut self, name: &str, value: i32)
        ensures
            final(self).id == old(self).id,
            final(self).writes@.len() == old(self).writes@.len() + 1,
            final(self).writes@.subrange(0, old(self).writes@.len() as int)
                == old(self).writes@,
            final(self).writes@.last().name@ == name@,
            final(self).writes@.last().value == UniformValue::Int(value),
    {
        let w = UniformWrite { name: name.to_owned(), value: UniformValue::Int(value) };
        self.writes.push(w);
        proof {
            assert(self.writes@.subrange(0, old(self).writes@.len() as int)
                =~= old(self).writes@);
        }
    }

    /// Record a boolean uniform write.
    pub fn set_uniform_bool(&mut self, name: &str, value: bool)
        ensures
            final(self).id == old(self).id,
            final(self).writes@.len() == old(self).writes@.len() + 1,
            final(self).writes@.subrange(0, old(self).writes@.len() as int)
                == old(self).writes@,
            final(self).writes@.last().name@ == name@,
            final(self).writes@.last().value == UniformValue::Bool(value),
    {
        let w = UniformWrite { name: name.to_owned(), value: UniformValue::Bool(value) };
        self.writes.push(w);
        proof {
            assert(self.writes@.subrange(0, old(self).writes@.len() as int)
                =~= old(self).writes@);
        }
    }
}

} // verus!
