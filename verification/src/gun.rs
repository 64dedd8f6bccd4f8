//! The catalogue of guns the calculator knows, their display names, and the
//! choice of a gun from its position in the settings list.

use vstd::prelude::*;

verus! {

/// A gun, with the ammunition it fires where that matters to the ballistics.
#[derive(Clone, Copy, Debug, PartialEq, Eq, Structural)]
pub enum GunType {
    Gun122,
    Gun122v,
    Gun125,
    GunAGS,
    Gun82he1,
    Gun82he2,
    Gun82he3,
    Gun82he4,
    Gunm7771,
    Gunm7772,
    Gunm7773,
    Gunm7774,
    Gunm7775,
}

/// Number of guns in the catalogue, which is also the number of entries of
/// the gun list in the settings window.
pub const GUN_COUNT: i32 = 13;

/// The gun at position `i` of the settings list (the order of declaration).
pub open spec fn gun_at(i: int) -> GunType {
    if i == 1 {
        GunType::Gun122v
    } else if i == 2 {
        GunType::Gun125
    } else if i == 3 {
        GunType::GunAGS
    } else if i == 4 {
        GunType::Gun82he1
    } else if i == 5 {
        GunType::Gun82he2
    } else if i == 6 {
        GunType::Gun82he3
    } else if i == 7 {
        GunType::Gun82he4
    } else if i == 8 {
        GunType::Gunm7771
    } else if i == 9 {
        GunType::Gunm7772
    } else if i == 10 {
        GunType::Gunm7773
    } else if i == 11 {
        GunType::Gunm7774
    } else if i == 12 {
        GunType::Gunm7775
    } else {
        GunType::Gun122
    }
}

/// The position of a gun in the settings list.
pub open spec fn gun_position(g: GunType) -> int {
    match g {
        GunType::Gun122 => 0,
        GunType::Gun122v => 1,
        GunType::Gun125 => 2,
        GunType::GunAGS => 3,
        GunType::Gun82he1 => 4,
        GunType::Gun82he2 => 5,
        GunType::Gun82he3 => 6,
        GunType::Gun82he4 => 7,
        GunType::Gunm7771 => 8,
        GunType::Gunm7772 => 9,
        GunType::Gunm7773 => 10,
        GunType::Gunm7774 => 11,
        GunType::Gunm7775 => 12,
    }
}

/// The name shown for a gun on the overlay.
pub open spec fn gun_name(g: GunType) -> Seq<char> {
    match g {
        GunType::Gun122 => "122"@,
        GunType::Gun122v => "122v"@,
        GunType::Gun125 => "125"@,
        GunType::GunAGS => "AGS"@,
        GunType::Gun82he1 => "82he1"@,
        GunType::Gun82he2 => "82he2"@,
        GunType::Gun82he3 => "82he3"@,
        GunType::Gun82he4 => "82he4"@,
        GunType::Gunm7771 => "m777he1"@,
        GunType::Gunm7772 => "m777he2 "@,
        GunType::Gunm7773 => "m777he3"@,
        GunType::Gunm7774 => "m777he4"@,
        GunType::Gunm7775 => "m777he5"@,
    }
}

impl GunType {
    /// The name shown for this gun on the overlay.
    pub fn name(&self) -> (s: &'static str)
        ensures
            s@ == gun_name(*self),
    {
        match self {
            GunType::Gun122 => "122",
            GunType::Gun122v => "122v",
            GunType::Gun125 => "125",
            GunType::GunAGS => "AGS",
            GunType::Gun82he1 => "82he1",
            GunType::Gun82he2 => "82he2",
            GunType::Gun82he3 => "82he3",
            GunType::Gun82he4 => "82he4",
            GunType::Gunm7771 => "m777he1",
            GunType::Gunm7772 => "m777he2 ",
            GunType::Gunm7773 => "m777he3",
            GunType::Gunm7774 => "m777he4",
            GunType::Gunm7775 => "m777he5",
        }
    }

    /// The gun chosen by the entry `sel` of the settings list; any value that
    /// is no entry (such as the list's "no selection" answer) chooses the
    /// first gun.
    pub fn from_selection(sel: i32) -> (g: GunType)
        ensures
            g == gun_at(sel as int),
            0 <= sel < GUN_COUNT ==> gun_position(g) == sel,
            !(0 <= sel < GUN_COUNT) ==> g == GunType::Gun122,
    {
        match sel {
            1 => GunType::Gun122v,
            2 => GunType::Gun125,
            3 => GunType::GunAGS,
            4 => GunType::Gun82he1,
            5 => GunType::Gun82he2,
            6 => GunType::Gun82he3,
            7 => GunType::Gun82he4,
            8 => GunType::Gunm7771,
            9 => GunType::Gunm7772,
            10 => GunType::Gunm7773,
            11 => GunType::Gunm7774,
            12 => GunType::Gunm7775,
            _ => GunType::Gun122,
        }
    }
}

/// Every gun is chosen by exactly its own entry of the settings list.
pub proof fn lemma_selection_roundtrip(g: GunType)
    ensures
        0 <= gun_position(g) < GUN_COUNT,
        gun_at(gun_position(g)) == g,
{
}

/// Distinct entries of the settings list choose distinct guns.
pub proof fn lemma_selection_injective(i: int, j: int)
    requires
        0 <= i < GUN_COUNT,
        0 <= j < GUN_COUNT,
        i != j,
    ensures
        gun_at(i) != gun_at(j),
{
}

/// The label of entry `i` of the gun list in the settings window.
pub open spec fn settings_list_label(i: int) -> Seq<char> {
    if i == 0 {
        "122"@
    } else if i == 1 {
        "122v"@
    } else if i == 2 {
        "125"@
    } else if i == 3 {
        "AGS"@
    } else if i == 4 {
        "82he1"@
    } else if i == 5 {
        "82he2"@
    } else if i == 6 {
        "82he3"@
    } else if i == 7 {
        "82he4"@
    } else if i == 8 {
        "m777he1"@
    } else if i == 9 {
        "m777he2"@
    } else if i == 10 {
        "m777he3"@
    } else if i == 11 {
        "m777he4"@
    } else {
        "m777he5"@
    }
}

/// The overlay shows each gun under the label of the settings-list entry
/// that chooses it. The one exception is entry 9 ("m777he2"), whose gun is
/// shown with a trailing space.
pub proof fn lemma_name_is_list_label(i: int)
    requires
        0 <= i < GUN_COUNT,
    ensures
        i != 9 ==> gun_name(gun_at(i)) == settings_list_label(i),
        i == 9 ==> gun_name(gun_at(i)) == settings_list_label(i) + " "@,
{
    if i == 9 {
        reveal_strlit("m777he2 ");
        reveal_strlit("m777he2");
        reveal_strlit(" ");
        assert(gun_name(gun_at(i)) =~= settings_list_label(i) + " "@);
    }
}

/// Distinct guns are shown under distinct names.
pub proof fn lemma_names_distinct(a: GunType, b: GunType)
    requires
        a != b,
    ensures
        gun_name(a) != gun_name(b),
{
    reveal_strlit("122");
    reveal_strlit("122v");
    reveal_strlit("125");
    reveal_strlit("AGS");
    reveal_strlit("82he1");
    reveal_strlit("82he2");
    reveal_strlit("82he3");
    reveal_strlit("82he4");
    reveal_strlit("m777he1");
    reveal_strlit("m777he2 ");
    reveal_strlit("m777he3");
    reveal_strlit("m777he4");
    reveal_strlit("m777he5");
    if gun_name(a) == gun_name(b) {
        assert(gun_name(a).len() == gun_name(b).len());
        assert(gun_name(a)[0] == gun_name(b)[0]);
        assert(gun_name(a)[gun_name(a).len() - 1] == gun_name(b)[gun_name(b).len() - 1]);
        assert(gun_name(a).len() > 2 ==> gun_name(a)[2] == gun_name(b)[2]);
    }
}

} // verus!
