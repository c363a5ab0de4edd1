use vstd::prelude::*;

verus! {

/// A linked shader program: the handle of its program object, and whether that
/// handle is still held (not yet released).
#[derive(Clone, Copy, Debug, PartialEq, Eq, Structural)]
pub struct Shader {
    pub id: u32,
    pub live: bool,
}

/// What releasing `s` leaves behind, and the handle it hands over for deletion.
pub open spec fn spec_release(s: Shader) -> (Shader, Option<u32>) {
    if s.live {
        (Shader { id: s.id, live: false }, Some(s.id))
    } else {
        (s, None)
    }
}

impl Shader {
    /// Gives up the program handle: the first call returns it for deletion, every
    /// later call returns `None`.
    pub fn release(&mut self) -> (r: Option<u32>)
        ensures
            (*final(self), r) == spec_release(*old(self)),
    {
        if self.live {
            self.live = false;
            Some(self.id)
        } else {
            None
        }
    }

    /// Makes this program the one in use on `ctx`.
    pub fn use_program(&self, ctx: &mut Context)
        requires
            self.live,
        ensures
            *final(ctx) == spec_use_program(*old(ctx), *self),
    {
        ctx.active = Some(self.id);
    }
}

/// The context after `s` is put in use on `ctx`.
pub open spec fn spec_use_program(ctx: Context, s: Shader) -> Context {
    Context { active: Some(s.id) }
}

/// The value a boolean uniform is uploaded as.
pub open spec fn spec_bool_value(b: bool) -> i32 {
    if b {
        1
    } else {
        0
    }
}

/// Where an upload of a uniform lands: a location within a program.
#[derive(Clone, Copy, Debug, PartialEq, Eq, Structural)]
pub struct UniformTarget {
    pub program: u32,
    pub location: i32,
}

/// The state of one rendering context that uniform uploads depend on: the program in use.
#[derive(Clone, Copy, Debug, PartialEq, Eq, Structural)]
pub struct Context {
    pub active: Option<u32>,
}

/// Where an upload to `location` lands on a context whose program in use is `active`:
/// nowhere when the name did not resolve (a negative location) or no program is in use.
pub open spec fn spec_uniform_target(active: Option<u32>, location: i32) -> Option<UniformTarget> {
    match active {
        Some(program) if location >= 0 => Some(UniformTarget { program, location }),
        _ => None,
    }
}

impl Context {
    /// A context with no program in use.
    pub fn new() -> (r: Context)
        ensures
            r.active is None,
    {
        Context { active: None }
    }

    /// Where an upload to `location` lands: always the program in use, whichever
    /// program the location was looked up in; `None` makes the upload a no-op.
    pub fn uniform_target(&self, location: i32) -> (r: Option<UniformTarget>)
        ensures
            r == spec_uniform_target(self.active, location),
    {
        match self.active {
            Some(program) => {
                if location >= 0 {
                    Some(UniformTarget { program, location })
                } else {
                    None
                }
            },
            None => None,
        }
    }

    /// The upload of a boolean uniform: where it lands, and the integer 0 or 1 it is stored as.
    pub fn bool_upload(&self, location: i32, value: bool) -> (r: Option<(UniformTarget, i32)>)
        ensures
            r == match spec_uniform_target(self.active, location) {
                Some(t) => Some((t, spec_bool_value(value))),
                None => None,
            },
    {
        match self.uniform_target(location) {
            Some(t) => Some((t, if value { 1i32 } else { 0i32 })),
            None => None,
        }
    }

    /// The upload of an integer uniform: where it lands, and the value itself.
    pub fn int_upload(&self, location: i32, value: i32) -> (r: Option<(UniformTarget, i32)>)
        ensures
            r == match spec_uniform_target(self.active, location) {
                Some(t) => Some((t, value)),
                None => None,
            },
    {
        match self.uniform_target(location) {
            Some(t) => Some((t, value)),
            None => None,
        }
    }
}

/// Releasing a program twice hands its handle over at most once, and a held
/// program hands it over on the first release.
pub proof fn lemma_release_once(s: Shader)
    ensures
        spec_release(s).1 is Some ==> spec_release(spec_release(s).0).1 is None,
        s.live ==> spec_release(s).1 == Some(s.id),
        spec_release(spec_release(s).0).0 == spec_release(s).0,
{
}

/// Uploads follow the program in use: after `a` and then `b` are put in use, an
/// upload to a resolved location lands in `b`, not in `a`.
pub proof fn lemma_uploads_follow_active(ctx: Context, a: Shader, b: Shader, location: i32)
    requires
        a.live,
        b.live,
        location >= 0,
    ensures
        ({
            let after_b = spec_use_program(spec_use_program(ctx, a), b);
            &&& spec_uniform_target(after_b.active, location) == Some(
                UniformTarget { program: b.id, location },
            )
            &&& a.id != b.id ==> spec_uniform_target(after_b.active, location)->0.program != a.id
        }),
{
}

} // verus!
