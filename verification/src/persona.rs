use vstd::prelude::*;

use crate::alchemy::opt_text;
use crate::table::Table;
use crate::text::same_text;

verus! {

/// A drink a customer likes. `tolerance_bonus` is the bit pattern of the
/// configured `f32`.
pub struct Preference {
    pub recipe: String,
    pub tolerance_bonus: u32,
    pub add_effect: Option<String>,
}

/// What the rules read of a preference.
pub struct PreferenceView {
    pub recipe: Seq<char>,
    pub tolerance_bonus: u32,
    pub add_effect: Option<Seq<char>>,
}

impl View for Preference {
    type V = PreferenceView;

    open spec fn view(&self) -> PreferenceView {
        PreferenceView {
            recipe: self.recipe@,
            tolerance_bonus: self.tolerance_bonus,
            add_effect: opt_text(self.add_effect),
        }
    }
}

/// Traits shared by the customers of one race. `tolerance` and `mood_bias`
/// are the bit patterns of the configured `f32` values.
pub struct RaceProfile {
    pub tolerance: u32,
    pub mood_bias: u32,
    pub texture: Option<String>,
}

/// A customer who can come into the tavern.
pub struct Persona {
    pub race: String,
    pub name: String,
    pub texture: Option<String>,
    pub greetings: Vec<String>,
    pub preferences: Vec<Preference>,
}

/// What the rules read of a customer.
pub struct PersonaView {
    pub race: Seq<char>,
    pub name: Seq<char>,
    pub texture: Option<Seq<char>>,
    pub greetings: Seq<Seq<char>>,
    pub preferences: Seq<PreferenceView>,
}

impl View for Persona {
    type V = PersonaView;

    open spec fn view(&self) -> PersonaView {
        PersonaView {
            race: self.race@,
            name: self.name@,
            texture: opt_text(self.texture),
            greetings: self.greetings@.map_values(|g: String| g@),
            preferences: self.preferences@.map_values(|p: Preference| p@),
        }
    }
}

/// A copy of an optional text.
pub fn copy_opt_text(o: &Option<String>) -> (r: Option<String>)
    ensures
        opt_text(r) == opt_text(*o),
{
    match o {
        Some(s) => Some(s.clone()),
        None => None,
    }
}

impl Preference {
    /// A copy of this preference.
    pub fn duplicate(&self) -> (r: Preference)
        ensures
            r@ == self@,
    {
        Preference {
            recipe: self.recipe.clone(),
            tolerance_bonus: self.tolerance_bonus,
            add_effect: copy_opt_text(&self.add_effect),
        }
    }
}

impl Persona {
    /// A copy of this customer.
    pub fn duplicate(&self) -> (r: Persona)
        ensures
            r@ == self@,
    {
        let mut greetings: Vec<String> = Vec::new();
        let n = self.greetings.len();
        let mut i: usize = 0;
        while i < n
            invariant
                n == self.greetings@.len(),
                i <= n,
                greetings@.len() == i,
                forall|j: int| 0 <= j < i ==> #[trigger] greetings@[j]@ == self.greetings@[j]@,
            decreases n - i,
        {
            greetings.push(self.greetings[i].clone());
            i = i + 1;
        }
        let mut preferences: Vec<Preference> = Vec::new();
        let m = self.preferences.len();
        let mut k: usize = 0;
        while k < m
            invariant
                m == self.preferences@.len(),
                k <= m,
                preferences@.len() == k,
                forall|j: int| 0 <= j < k ==> #[trigger] preferences@[j]@ == self.preferences@[j]@,
            decreases m - k,
        {
            preferences.push(self.preferences[k].duplicate());
            k = k + 1;
        }
        let r = Persona {
            race: self.race.clone(),
            name: self.name.clone(),
            texture: copy_opt_text(&self.texture),
            greetings,
            preferences,
        };
        assert(r@.greetings =~= self@.greetings);
        assert(r@.preferences =~= self@.preferences);
        r
    }
}

/// The customers that can come, and the traits of each race.
pub struct PersonnaConfig {
    pub races: Vec<String>,
    pub race_profiles: Table<String, RaceProfile>,
    pub personas: Vec<Persona>,
}

/// The sprite sheet drawn for a customer: its own, else its race's, else the knight.
pub open spec fn texture_spec(race_profiles: Map<Seq<char>, RaceProfile>, p: PersonaView) -> Seq<
    char,
> {
    match p.texture {
        Some(t) => t,
        None => if race_profiles.contains_key(p.race) && race_profiles[p.race].texture is Some {
            race_profiles[p.race].texture->0@
        } else {
            "knight.png"@
        },
    }
}

impl PersonnaConfig {
    /// The sprite sheet drawn for `persona`: its own, else the one of its
    /// race, else the knight.
    pub fn texture_for(&self, persona: &Persona) -> (r: String)
        ensures
            r@ == texture_spec(self.race_profiles@, persona@),
    {
        match &persona.texture {
            Some(t) => t.clone(),
            None => match self.race_profiles.get(&persona.race) {
                Some(profile) => match &profile.texture {
                    Some(t) => t.clone(),
                    None => String::from_str("knight.png"),
                },
                None => String::from_str("knight.png"),
            },
        }
    }
}

/// A customer's own sprite sheet comes before the one of its race.
pub proof fn lemma_own_texture_first(race_profiles: Map<Seq<char>, RaceProfile>, p: PersonaView)
    requires
        p.texture is Some,
    ensures
        texture_spec(race_profiles, p) == p.texture->0,
{
}

/// Where the wait indicator sits above a customer, by sprite sheet.
pub open spec fn wait_indicator_offset_spec(texture: Seq<char>) -> (i32, i32) {
    if texture == "orc.aseprite"@ {
        (0, 70)
    } else if texture == "goblin.aseprite"@ {
        (0, 70)
    } else if texture == "wizard.aseprite"@ {
        (0, 60)
    } else if texture == "warrior.aseprite"@ {
        (-5i32, 60)
    } else {
        (0, 50)
    }
}

/// Where the wait indicator sits above a customer drawn with `texture`, in pixels.
pub fn wait_indicator_offset(texture: &str) -> (r: (i32, i32))
    ensures
        r == wait_indicator_offset_spec(texture@),
{
    if same_text(texture, "orc.aseprite") {
        (0, 70)
    } else if same_text(texture, "goblin.aseprite") {
        (0, 70)
    } else if same_text(texture, "wizard.aseprite") {
        (0, 60)
    } else if same_text(texture, "warrior.aseprite") {
        (-5, 60)
    } else {
        (0, 50)
    }
}

} // verus!
