use vstd::prelude::*;
use vstd::string::StringExecFns;

verus! {

/// The type tag of a value that the VM hands over by pointer. The tag's byte is
/// its position in this list, but for `NoValue`, whose byte is 255.
#[derive(Clone, Copy, Debug, PartialEq, Eq, Structural, Hash, PartialOrd, Ord)]
pub enum UserData {
    Nil,
    Bool,
    LightUserData,
    Number,
    String,
    Table,
    Function,
    UserData,
    Thread,
    Entity,
    Vector,
    Angle,
    PhysObj,
    Save,
    Restore,
    DamageInfo,
    EffectData,
    MoveData,
    RecipientFilter,
    UserCmd,
    ScriptedVehicle,
    Material,
    Panel,
    Particle,
    ParticleEmitter,
    Texture,
    UserMsg,
    ConVar,
    IMesh,
    Matrix,
    Sound,
    PixelVisHandle,
    DLight,
    Video,
    File,
    Locomotion,
    Path,
    NavArea,
    SoundHandle,
    NavLadder,
    ParticleSystem,
    ProjectedTexture,
    PhysCollide,
    SurfaceInfo,
    MAX,
    NoValue,
}

impl UserData {
    /// The byte that identifies the tag.
    pub open spec fn spec_tag(self) -> u8 {
        match self {
            UserData::Nil => 0,
            UserData::Bool => 1,
            UserData::LightUserData => 2,
            UserData::Number => 3,
            UserData::String => 4,
            UserData::Table => 5,
            UserData::Function => 6,
            UserData::UserData => 7,
            UserData::Thread => 8,
            UserData::Entity => 9,
            UserData::Vector => 10,
            UserData::Angle => 11,
            UserData::PhysObj => 12,
            UserData::Save => 13,
            UserData::Restore => 14,
            UserData::DamageInfo => 15,
            UserData::EffectData => 16,
            UserData::MoveData => 17,
            UserData::RecipientFilter => 18,
            UserData::UserCmd => 19,
            UserData::ScriptedVehicle => 20,
            UserData::Material => 21,
            UserData::Panel => 22,
            UserData::Particle => 23,
            UserData::ParticleEmitter => 24,
            UserData::Texture => 25,
            UserData::UserMsg => 26,
            UserData::ConVar => 27,
            UserData::IMesh => 28,
            UserData::Matrix => 29,
            UserData::Sound => 30,
            UserData::PixelVisHandle => 31,
            UserData::DLight => 32,
            UserData::Video => 33,
            UserData::File => 34,
            UserData::Locomotion => 35,
            UserData::Path => 36,
            UserData::NavArea => 37,
            UserData::SoundHandle => 38,
            UserData::NavLadder => 39,
            UserData::ParticleSystem => 40,
            UserData::ProjectedTexture => 41,
            UserData::PhysCollide => 42,
            UserData::SurfaceInfo => 43,
            UserData::MAX => 44,
            UserData::NoValue => 255,
        }
    }

    /// The byte that identifies the tag.
    pub fn tag(&self) -> (r: u8)
        ensures
            r == self.spec_tag(),
    {
        match self {
            UserData::Nil => 0,
            UserData::Bool => 1,
            UserData::LightUserData => 2,
            UserData::Number => 3,
            UserData::String => 4,
            UserData::Table => 5,
            UserData::Function => 6,
            UserData::UserData => 7,
            UserData::Thread => 8,
            UserData::Entity => 9,
            UserData::Vector => 10,
            UserData::Angle => 11,
            UserData::PhysObj => 12,
            UserData::Save => 13,
            UserData::Restore => 14,
            UserData::DamageInfo => 15,
            UserData::EffectData => 16,
            UserData::MoveData => 17,
            UserData::RecipientFilter => 18,
            UserData::UserCmd => 19,
            UserData::ScriptedVehicle => 20,
            UserData::Material => 21,
            UserData::Panel => 22,
            UserData::Particle => 23,
            UserData::ParticleEmitter => 24,
            UserData::Texture => 25,
            UserData::UserMsg => 26,
            UserData::ConVar => 27,
            UserData::IMesh => 28,
            UserData::Matrix => 29,
            UserData::Sound => 30,
            UserData::PixelVisHandle => 31,
            UserData::DLight => 32,
            UserData::Video => 33,
            UserData::File => 34,
            UserData::Locomotion => 35,
            UserData::Path => 36,
            UserData::NavArea => 37,
            UserData::SoundHandle => 38,
            UserData::NavLadder => 39,
            UserData::ParticleSystem => 40,
            UserData::ProjectedTexture => 41,
            UserData::PhysCollide => 42,
            UserData::SurfaceInfo => 43,
            UserData::MAX => 44,
            UserData::NoValue => 255,
        }
    }

    /// Whether `b` is the byte of some tag.
    pub open spec fn is_tag_byte(b: u8) -> bool {
        b <= 44 || b == 255
    }

    /// The tag whose byte is `b`, if there is one.
    pub fn from_tag(b: u8) -> (r: Option<UserData>)
        ensures
            r is Some <==> Self::is_tag_byte(b),
            r is Some ==> r->Some_0.spec_tag() == b,
    {
        match b {
            0 => Some(UserData::Nil),
            1 => Some(UserData::Bool),
            2 => Some(UserData::LightUserData),
            3 => Some(UserData::Number),
            4 => Some(UserData::String),
            5 => Some(UserData::Table),
            6 => Some(UserData::Function),
            7 => Some(UserData::UserData),
            8 => Some(UserData::Thread),
            9 => Some(UserData::Entity),
            10 => Some(UserData::Vector),
            11 => Some(UserData::Angle),
            12 => Some(UserData::PhysObj),
            13 => Some(UserData::Save),
            14 => Some(UserData::Restore),
            15 => Some(UserData::DamageInfo),
            16 => Some(UserData::EffectData),
            17 => Some(UserData::MoveData),
            18 => Some(UserData::RecipientFilter),
            19 => Some(UserData::UserCmd),
            20 => Some(UserData::ScriptedVehicle),
            21 => Some(UserData::Material),
            22 => Some(UserData::Panel),
            23 => Some(UserData::Particle),
            24 => Some(UserData::ParticleEmitter),
            25 => Some(UserData::Texture),
            26 => Some(UserData::UserMsg),
            27 => Some(UserData::ConVar),
            28 => Some(UserData::IMesh),
            29 => Some(UserData::Matrix),
            30 => Some(UserData::Sound),
            31 => Some(UserData::PixelVisHandle),
            32 => Some(UserData::DLight),
            33 => Some(UserData::Video),
            34 => Some(UserData::File),
            35 => Some(UserData::Locomotion),
            36 => Some(UserData::Path),
            37 => Some(UserData::NavArea),
            38 => Some(UserData::SoundHandle),
            39 => Some(UserData::NavLadder),
            40 => Some(UserData::ParticleSystem),
            41 => Some(UserData::ProjectedTexture),
            42 => Some(UserData::PhysCollide),
            43 => Some(UserData::SurfaceInfo),
            44 => Some(UserData::MAX),
            255 => Some(UserData::NoValue),
            _ => None,
        }
    }
}

/// A value that the VM passes by pointer, with the tag that says what it points to.
/// The VM owns the memory; `data` is its address.
#[derive(Clone, Copy, Debug, PartialEq, Eq, Structural, Hash)]
pub struct TaggedUserData {
    pub data: usize,
    pub tag: UserData,
}

/// Native types that a tagged value may be downcast to.
pub trait CoercibleUserData {
    /// The tag that values of this type carry.
    spec fn spec_user_data_type() -> UserData;

    /// The tag that values of this type carry.
    fn user_data_type() -> (r: UserData)
        ensures
            r == Self::spec_user_data_type(),
    ;
}

impl TaggedUserData {
    /// The checked downcast: the address when the tag is `expected`, else the
    /// actual tag.
    pub open spec fn spec_coerce(&self, expected: UserData) -> Result<usize, UserData> {
        if self.tag == expected {
            Ok(self.data)
        } else {
            Err(self.tag)
        }
    }

    /// Downcasts to the type whose tag is `expected`: hands out the address only
    /// when the tags match, and otherwise returns the actual tag.
    pub fn coerce_to(&self, expected: UserData) -> (r: Result<usize, UserData>)
        ensures
            r == self.spec_coerce(expected),
    {
        if self.tag == expected {
            Ok(self.data)
        } else {
            Err(self.tag)
        }
    }

    /// Downcasts to `T`, checking the tag against `T`'s own.
    pub fn coerce<T: CoercibleUserData>(&self) -> (r: Result<usize, UserData>)
        ensures
            r == self.spec_coerce(T::spec_user_data_type()),
    {
        let expected = T::user_data_type();
        self.coerce_to(expected)
    }
}

/// The message for a value that is not a userdata (of the named type, if any).
pub open spec fn spec_expected_userdata(meta_name: Option<&str>) -> Seq<char> {
    match meta_name {
        Some(m) => "expected a userdata of type: "@ + m@,
        None => "expected a userdata"@,
    }
}

/// The outcome of checking a stack value as a userdata of the named type: its
/// address, or the message of the first check that failed.
pub open spec fn spec_check_userdata(
    is_userdata: bool,
    metatable_matches: bool,
    meta_name: Option<&str>,
    address: usize,
    align: usize,
) -> Result<usize, Seq<char>> {
    if !is_userdata {
        Err(spec_expected_userdata(meta_name))
    } else if meta_name is Some && !metatable_matches {
        Err(spec_expected_userdata(meta_name))
    } else if address == 0 {
        Err("invalid userdata pointer"@)
    } else if address % align != 0 {
        Err("invalid userdata pointer alignment"@)
    } else {
        Ok(address)
    }
}

/// Checks a stack value before it is used as a userdata: it must be one, carry
/// the named metatable when a name is given (`metatable_matches` says whether
/// it does), and sit at a non-null address aligned to `align`.
pub fn check_userdata(
    is_userdata: bool,
    metatable_matches: bool,
    meta_name: Option<&str>,
    address: usize,
    align: usize,
) -> (r: Result<usize, String>)
    requires
        align > 0,
    ensures
        r is Ok == spec_check_userdata(is_userdata, metatable_matches, meta_name, address, align) is Ok,
        r is Ok ==> r->Ok_0 == address,
        r is Err ==> r->Err_0@ == spec_check_userdata(
            is_userdata,
            metatable_matches,
            meta_name,
            address,
            align,
        )->Err_0,
{
    let named = match meta_name {
        Some(_) => true,
        None => false,
    };
    if !is_userdata || (named && !metatable_matches) {
        match meta_name {
            Some(m) => Err(String::from_str("expected a userdata of type: ").concat(m)),
            None => Err(String::from_str("expected a userdata")),
        }
    } else if address == 0 {
        Err(String::from_str("invalid userdata pointer"))
    } else if address % align != 0 {
        Err(String::from_str("invalid userdata pointer alignment"))
    } else {
        Ok(address)
    }
}

} // verus!
