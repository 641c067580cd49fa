use vstd::prelude::*;

verus! {

/// The number of texture units that a shader program binds textures to.
pub const TEXTURE_SLOTS: usize = 16;

/// A texture unit of a shader program, from unit 0 to unit 15.
#[derive(Clone, Copy, Debug, PartialEq, Eq, Structural)]
pub enum TextureIndex {
    Index0,
    Index1,
    Index2,
    Index3,
    Index4,
    Index5,
    Index6,
    Index7,
    Index8,
    Index9,
    Index10,
    Index11,
    Index12,
    Index13,
    Index14,
    Index15,
}

/// The position of a texture unit in the table of units.
pub open spec fn index_of(t: TextureIndex) -> nat {
    match t {
        TextureIndex::Index0 => 0,
        TextureIndex::Index1 => 1,
        TextureIndex::Index2 => 2,
        TextureIndex::Index3 => 3,
        TextureIndex::Index4 => 4,
        TextureIndex::Index5 => 5,
        TextureIndex::Index6 => 6,
        TextureIndex::Index7 => 7,
        TextureIndex::Index8 => 8,
        TextureIndex::Index9 => 9,
        TextureIndex::Index10 => 10,
        TextureIndex::Index11 => 11,
        TextureIndex::Index12 => 12,
        TextureIndex::Index13 => 13,
        TextureIndex::Index14 => 14,
        TextureIndex::Index15 => 15,
    }
}

impl TextureIndex {
    /// The position of this unit in the table of units.
    pub fn index(&self) -> (r: usize)
        ensures
            r as nat == index_of(*self),
            r < TEXTURE_SLOTS,
    {
        match self {
            TextureIndex::Index0 => 0,
            TextureIndex::Index1 => 1,
            TextureIndex::Index2 => 2,
            TextureIndex::Index3 => 3,
            TextureIndex::Index4 => 4,
            TextureIndex::Index5 => 5,
            TextureIndex::Index6 => 6,
            TextureIndex::Index7 => 7,
            TextureIndex::Index8 => 8,
            TextureIndex::Index9 => 9,
            TextureIndex::Index10 => 10,
            TextureIndex::Index11 => 11,
            TextureIndex::Index12 => 12,
            TextureIndex::Index13 => 13,
            TextureIndex::Index14 => 14,
            TextureIndex::Index15 => 15,
        }
    }

    /// The unit at position `i`, if there is one.
    pub fn from_index(i: usize) -> (r: Option<TextureIndex>)
        ensures
            r.is_some() <==> i < TEXTURE_SLOTS,
            r matches Some(t) ==> index_of(t) == i,
    {
        match i {
            0 => Some(TextureIndex::Index0),
            1 => Some(TextureIndex::Index1),
            2 => Some(TextureIndex::Index2),
            3 => Some(TextureIndex::Index3),
            4 => Some(TextureIndex::Index4),
            5 => Some(TextureIndex::Index5),
            6 => Some(TextureIndex::Index6),
            7 => Some(TextureIndex::Index7),
            8 => Some(TextureIndex::Index8),
            9 => Some(TextureIndex::Index9),
            10 => Some(TextureIndex::Index10),
            11 => Some(TextureIndex::Index11),
            12 => Some(TextureIndex::Index12),
            13 => Some(TextureIndex::Index13),
            14 => Some(TextureIndex::Index14),
            15 => Some(TextureIndex::Index15),
            _ => None,
        }
    }

    /// The OpenGL name of this texture unit, `TEXTURE0 + index`, which is what
    /// `glActiveTexture` selects.
    pub fn texture_unit(&self) -> (r: u32)
        ensures
            r as nat == TEXTURE_UNIT_BASE as nat + index_of(*self),
    {
        gl_texture0() + self.index() as u32
    }
}

/// The OpenGL name of texture unit 0; unit `i` is named `TEXTURE_UNIT_BASE + i`.
pub const TEXTURE_UNIT_BASE: u32 = 0x84C0;

/// Relies on `glow::TEXTURE0`: the OpenGL name of texture unit 0.
#[verifier::external_body]
fn gl_texture0() -> (r: u32)
    ensures
        r == TEXTURE_UNIT_BASE,
{
    glow::TEXTURE0
}

/// The stage of the pipeline that a shader is compiled for.
#[derive(Clone, Copy, Debug, PartialEq, Eq, Structural)]
pub enum ShaderType {
    VertexShader,
    FragmentShader,
}

/// The OpenGL name of a shader stage, as `glCreateShader` takes it.
pub open spec fn shader_kind(t: ShaderType) -> u32 {
    match t {
        ShaderType::VertexShader => 0x8B31,
        ShaderType::FragmentShader => 0x8B30,
    }
}

impl ShaderType {
    /// The OpenGL name of this stage.
    pub fn gl_kind(&self) -> (r: u32)
        ensures
            r == shader_kind(*self),
    {
        match self {
            ShaderType::VertexShader => gl_vertex_shader(),
            ShaderType::FragmentShader => gl_fragment_shader(),
        }
    }
}

/// Relies on `glow::VERTEX_SHADER`: the OpenGL name of the vertex stage.
#[verifier::external_body]
fn gl_vertex_shader() -> (r: u32)
    ensures
        r == 0x8B31,
{
    glow::VERTEX_SHADER
}

/// Relies on `glow::FRAGMENT_SHADER`: the OpenGL name of the fragment stage.
#[verifier::external_body]
fn gl_fragment_shader() -> (r: u32)
    ensures
        r == 0x8B30,
{
    glow::FRAGMENT_SHADER
}

/// Why a texture could not be attached to a shader program.
#[derive(Clone, Copy, Debug, PartialEq, Eq, Structural)]
pub enum TextureError {
    /// The unit already holds a texture.
    TextureIndexTaken { index: TextureIndex },
}

/// The textures of a shader program, at most one per texture unit.
///
/// Its view has one entry per unit, in the order of the units: `Some(t)` where
/// texture `t` is attached to that unit, `None` where the unit is free.
pub struct TextureSlots<T> {
    slots: Vec<Option<T>>,
}

impl<T> View for TextureSlots<T> {
    type V = Seq<Option<T>>;

    closed spec fn view(&self) -> Seq<Option<T>> {
        self.slots@
    }
}

/// The units that hold a texture among the first `n` entries of `s`, in
/// increasing order.
pub open spec fn occupied_units<T>(s: Seq<Option<T>>, n: nat) -> Seq<TextureIndex>
    decreases n,
{
    if n == 0 {
        Seq::empty()
    } else {
        let before = occupied_units(s, (n - 1) as nat);
        if s[n - 1].is_some() {
            before.push(index_at((n - 1) as nat))
        } else {
            before
        }
    }
}

/// The unit at position `i` of the table of units (`i < TEXTURE_SLOTS`).
pub open spec fn index_at(i: nat) -> TextureIndex {
    choose|t: TextureIndex| index_of(t) == i
}

impl<T> TextureSlots<T> {
    /// The table holds exactly one entry per texture unit.
    pub closed spec fn wf(&self) -> bool {
        self.slots@.len() == TEXTURE_SLOTS
    }

    /// A table in which every unit is free.
    pub fn new() -> (r: Self)
        ensures
            r.wf(),
            r@ == Seq::<Option<T>>::new(TEXTURE_SLOTS as nat, |i: int| None),
    {
        let mut slots: Vec<Option<T>> = Vec::new();
        let mut i: usize = 0;
        while i < TEXTURE_SLOTS
            invariant
                i <= TEXTURE_SLOTS,
                slots@ == Seq::<Option<T>>::new(i as nat, |j: int| None),
            decreases TEXTURE_SLOTS - i,
        {
            slots.push(None);
            i = i + 1;
        }
        TextureSlots { slots }
    }

    /// Attaches `texture` to unit `index`, unless that unit already holds one;
    /// then the table is left as it was and the texture is dropped.
    pub fn add_texture(&mut self, texture: T, index: TextureIndex) -> (r: Result<(), TextureError>)
        requires
            old(self).wf(),
        ensures
            final(self).wf(),
            old(self)@[index_of(index) as int].is_some() ==> {
                &&& r == Err::<(), TextureError>(TextureError::TextureIndexTaken { index })
                &&& final(self)@ == old(self)@
            },
            old(self)@[index_of(index) as int].is_none() ==> {
                &&& r == Ok::<(), TextureError>(())
                &&& final(self)@ == old(self)@.update(index_of(index) as int, Some(texture))
            },
    {
        let i = index.index();
        if self.slots[i].is_some() {
            return Err(TextureError::TextureIndexTaken { index });
        }
        self.slots.set(i, Some(texture));
        Ok(())
    }

    /// The texture attached to unit `index`, if any.
    pub fn get(&self, index: TextureIndex) -> (r: Option<&T>)
        requires
            self.wf(),
        ensures
            r matches Some(t) ==> self@[index_of(index) as int] == Some(*t),
            r is None ==> self@[index_of(index) as int] is None,
    {
        match &self.slots[index.index()] {
            Some(t) => Some(t),
            None => None,
        }
    }

    /// The units that hold a texture, in increasing order: the units that
    /// binding the program activates, one after another.
    pub fn occupied(&self) -> (r: Vec<TextureIndex>)
        requires
            self.wf(),
        ensures
            r@ == occupied_units(self@, TEXTURE_SLOTS as nat),
    {
        let mut r: Vec<TextureIndex> = Vec::new();
        let mut i: usize = 0;
        while i < TEXTURE_SLOTS
            invariant
                i <= TEXTURE_SLOTS,
                self.wf(),
                r@ == occupied_units(self@, i as nat),
            decreases TEXTURE_SLOTS - i,
        {
            if self.slots[i].is_some() {
                let t = TextureIndex::from_index(i).unwrap();
                proof {
                    lemma_index_at(t);
                }
                r.push(t);
            }
            i = i + 1;
        }
        r
    }
}

/// A unit is the one found at its own position in the table of units.
pub proof fn lemma_index_at(t: TextureIndex)
    ensures
        index_at(index_of(t)) == t,
{
    let c = index_at(index_of(t));
    assert(index_of(c) == index_of(t));
}

} // verus!
