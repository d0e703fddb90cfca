use vstd::prelude::*;

use crate::table::Table;

verus! {

/// The view of an optional text.
pub open spec fn opt_text(o: Option<String>) -> Option<Seq<char>> {
    match o {
        Some(s) => Some(s@),
        None => None,
    }
}

/// A bottle or glass that holds doses of a single liquid.
pub struct LiquidContainer {
    /// The liquid it holds, if any.
    pub content: Option<String>,
    /// How many doses it holds.
    pub level: usize,
    /// How many doses it can hold.
    pub max_doses: usize,
    /// Whether it is the glass served to customers.
    pub is_glass: bool,
}

impl LiquidContainer {
    pub open spec fn content_view(&self) -> Option<Seq<char>> {
        opt_text(self.content)
    }

    /// Within its capacity, and holding a liquid exactly when it holds a dose.
    pub open spec fn is_consistent(&self) -> bool {
        &&& self.level <= self.max_doses
        &&& (self.content is None <==> self.level == 0)
    }
}

/// A drink that mixing can produce: the name shown to customers and its
/// sprite sheet.
pub struct ResultTypes {
    pub name: String,
    pub texture: String,
}

/// The mixing rules: the drinks that exist, and which liquid comes out of
/// pouring one liquid onto another.
pub struct RecipesConfig {
    pub beverages: Table<String, ResultTypes>,
    pub recipes: Table<(String, String), String>,
}

/// The recipe book as a map from a pair of liquids to the liquid they make.
pub type RecipeBook = Map<(Seq<char>, Seq<char>), String>;

/// The liquid that pouring `poured` onto `present` makes, if a recipe names
/// the pair in either order; the order given first is tried first.
pub open spec fn mix_spec(book: RecipeBook, poured: Seq<char>, present: Seq<char>) -> Option<
    Seq<char>,
> {
    if book.contains_key((poured, present)) {
        Some(book[(poured, present)]@)
    } else if book.contains_key((present, poured)) {
        Some(book[(present, poured)]@)
    } else {
        None
    }
}

/// The recipe book of an optional configuration.
pub open spec fn book_of(recipes: Option<&RecipesConfig>) -> Option<RecipeBook> {
    match recipes {
        Some(c) => Some(c.recipes@),
        None => None,
    }
}

/// Whether a dose can go from `held` into `target`.
pub open spec fn can_pour(held: LiquidContainer, target: LiquidContainer) -> bool {
    &&& held.level > 0
    &&& target.level < target.max_doses
    &&& held.content is Some
}

/// What the target holds after a dose of `poured` lands in it.
pub open spec fn content_after_pour(
    book: Option<RecipeBook>,
    poured: Seq<char>,
    present: Option<Seq<char>>,
) -> Option<Seq<char>> {
    match present {
        None => Some(poured),
        Some(t) => match book {
            Some(b) => match mix_spec(b, poured, t) {
                Some(m) => Some(m),
                None => Some(t),
            },
            None => Some(t),
        },
    }
}

/// How one pour relates the two containers before (`h0`, `t0`) and after
/// (`h1`, `t1`) it; `poured` tells whether a dose moved.
pub open spec fn pours(
    book: Option<RecipeBook>,
    h0: LiquidContainer,
    t0: LiquidContainer,
    h1: LiquidContainer,
    t1: LiquidContainer,
    poured: bool,
) -> bool {
    &&& poured == can_pour(h0, t0)
    &&& !poured ==> h1 == h0 && t1 == t0
    &&& poured ==> {
        &&& h1.level == h0.level - 1
        &&& h1.max_doses == h0.max_doses
        &&& h1.is_glass == h0.is_glass
        &&& h1.content_view() == if h0.level == 1 {
            None
        } else {
            h0.content_view()
        }
        &&& t1.level == t0.level + 1
        &&& t1.max_doses == t0.max_doses
        &&& t1.is_glass == t0.is_glass
        &&& t1.content_view() == content_after_pour(
            book,
            h0.content_view()->0,
            t0.content_view(),
        )
    }
}

impl RecipesConfig {
    /// Every recipe makes a drink that the configuration knows.
    pub open spec fn recipes_make_drinks(&self) -> bool {
        forall|k: (Seq<char>, Seq<char>)|
            #[trigger] self.recipes@.contains_key(k) ==> self.beverages@.contains_key(
                self.recipes@[k]@,
            )
    }

    /// A configuration with no drinks and no recipes.
    pub fn new() -> (c: RecipesConfig)
        ensures
            c.beverages@ == Map::<Seq<char>, ResultTypes>::empty(),
            c.recipes@ == Map::<(Seq<char>, Seq<char>), String>::empty(),
    {
        RecipesConfig { beverages: Table::new(), recipes: Table::new() }
    }

    /// The liquid that pouring `poured` onto `present` makes, if any.
    pub fn mix(&self, poured: &String, present: &String) -> (r: Option<String>)
        ensures
            opt_text(r) == mix_spec(self.recipes@, poured@, present@),
    {
        let forward = (poured.clone(), present.clone());
        match self.recipes.get(&forward) {
            Some(m) => Some(m.clone()),
            None => {
                let backward = (present.clone(), poured.clone());
                match self.recipes.get(&backward) {
                    Some(m) => Some(m.clone()),
                    None => None,
                }
            },
        }
    }
}

/// Pours one dose from `held` into `target`, if `held` has a dose and `target`
/// has room. The target takes the poured liquid when it was empty; otherwise
/// a recipe for the two liquids, if there is one, turns its content into the
/// recipe's result.
pub fn pour_one_dose(
    held: &mut LiquidContainer,
    target: &mut LiquidContainer,
    recipes: Option<&RecipesConfig>,
) -> (poured: bool)
    ensures
        pours(book_of(recipes), *old(held), *old(target), *final(held), *final(target), poured),
{
    if held.level > 0 && target.level < target.max_doses {
        let poured_content = match &held.content {
            Some(c) => c.clone(),
            None => {
                return false;
            },
        };
        held.level = held.level - 1;
        if held.level == 0 {
            held.content = None;
        }
        target.level = target.level + 1;
        let new_content = match &target.content {
            Some(present) => match recipes {
                Some(config) => match config.mix(&poured_content, present) {
                    Some(mixed) => Some(mixed),
                    None => None,
                },
                None => None,
            },
            None => Some(poured_content),
        };
        if new_content.is_some() {
            target.content = new_content;
        }
        true
    } else {
        false
    }
}

/// The first entity of `s`, other than `held`, that is a container.
pub open spec fn first_pour_target(held: u64, s: Seq<(u64, bool)>) -> Option<u64>
    decreases s.len(),
{
    if s.len() == 0 {
        None
    } else if s[0].1 && s[0].0 != held {
        Some(s[0].0)
    } else {
        first_pour_target(held, s.drop_first())
    }
}

/// The first entity under the cursor, other than the held one, that is a
/// container: the target of a pour. `under_cursor` lists the entities under
/// the cursor with whether each holds liquid.
pub fn pour_target(held: u64, under_cursor: &Vec<(u64, bool)>) -> (r: Option<u64>)
    ensures
        r == first_pour_target(held, under_cursor@),
{
    let n = under_cursor.len();
    let mut i: usize = 0;
    proof {
        assert(under_cursor@.skip(0) =~= under_cursor@);
    }
    while i < n
        invariant
            n == under_cursor@.len(),
            i <= n,
            first_pour_target(held, under_cursor@) == first_pour_target(
                held,
                under_cursor@.skip(i as int),
            ),
        decreases n - i,
    {
        let (e, is_container) = under_cursor[i];
        proof {
            let t = under_cursor@.skip(i as int);
            assert(t[0] == under_cursor@[i as int]);
            assert(t.drop_first() =~= under_cursor@.skip(i + 1));
        }
        if is_container && e != held {
            return Some(e);
        }
        i = i + 1;
    }
    None
}

/// The pair of containers to pour between when the player asks for a pour:
/// the held container and the target under the cursor.
pub fn handle_pouring(
    pour_pressed: bool,
    held: Option<u64>,
    under_cursor: &Vec<(u64, bool)>,
) -> (r: Option<(u64, u64)>)
    ensures
        r == if pour_pressed && held is Some {
            match first_pour_target(held->0, under_cursor@) {
                Some(t) => Some((held->0, t)),
                None => None,
            }
        } else {
            None
        },
{
    if !pour_pressed {
        return None;
    }
    match held {
        None => None,
        Some(h) => match pour_target(h, under_cursor) {
            Some(t) => Some((h, t)),
            None => None,
        },
    }
}

/// A pour moves one dose: together the two containers hold as many doses
/// after it as before.
pub proof fn lemma_pour_conserves_doses(
    book: Option<RecipeBook>,
    h0: LiquidContainer,
    t0: LiquidContainer,
    h1: LiquidContainer,
    t1: LiquidContainer,
    poured: bool,
)
    requires
        pours(book, h0, t0, h1, t1, poured),
    ensures
        h1.level + t1.level == h0.level + t0.level,
{
}

/// Pouring keeps both containers within their capacity, each holding a liquid
/// exactly when it holds a dose.
pub proof fn lemma_pour_keeps_consistency(
    book: Option<RecipeBook>,
    h0: LiquidContainer,
    t0: LiquidContainer,
    h1: LiquidContainer,
    t1: LiquidContainer,
    poured: bool,
)
    requires
        pours(book, h0, t0, h1, t1, poured),
        h0.is_consistent(),
        t0.is_consistent(),
    ensures
        h1.is_consistent(),
        t1.is_consistent(),
{
}

/// Mixing does not depend on which liquid is poured onto which, unless the
/// recipe book gives the two orders different results.
pub proof fn lemma_mix_order_irrelevant(book: RecipeBook, a: Seq<char>, b: Seq<char>)
    requires
        book.contains_key((a, b)) && book.contains_key((b, a)) ==> book[(a, b)]@ == book[(
            b,
            a,
        )]@,
    ensures
        mix_spec(book, a, b) == mix_spec(book, b, a),
{
}

/// A dose moves exactly when the held container has a dose and a liquid and
/// the target has room, whether the target is a glass or a bottle.
pub proof fn lemma_pour_happens_exactly_when_possible(
    book: Option<RecipeBook>,
    h0: LiquidContainer,
    t0: LiquidContainer,
    h1: LiquidContainer,
    t1: LiquidContainer,
    poured: bool,
)
    requires
        pours(book, h0, t0, h1, t1, poured),
    ensures
        poured <==> (h0.level > 0 && t0.level < t0.max_doses && h0.content is Some),
        poured ==> h1.level + 1 == h0.level && t1.level == t0.level + 1,
        !poured ==> h1.level == h0.level && t1.level == t0.level,
{
}

/// What the containers hold after a pour: the held container keeps its
/// liquid until its last dose goes; an empty target takes the poured liquid;
/// a target that held a liquid turns into what the recipe book makes of the
/// two (the pair "poured onto present" first, then the reverse), and keeps
/// its liquid when no recipe names them or no book is loaded.
pub proof fn lemma_pour_contents(
    book: Option<RecipeBook>,
    h0: LiquidContainer,
    t0: LiquidContainer,
    h1: LiquidContainer,
    t1: LiquidContainer,
)
    requires
        pours(book, h0, t0, h1, t1, true),
    ensures
        h0.level == 1 ==> h1.content is None,
        h0.level > 1 ==> h1.content_view() == h0.content_view(),
        ({
            let p = h0.content->0@;
            match t0.content {
                None => t1.content_view() == Some(p),
                Some(present) => {
                    let q = present@;
                    match book {
                        None => t1.content_view() == Some(q),
                        Some(b) => if b.contains_key((p, q)) {
                            t1.content_view() == Some(b[(p, q)]@)
                        } else if b.contains_key((q, p)) {
                            t1.content_view() == Some(b[(q, p)]@)
                        } else {
                            t1.content_view() == Some(q)
                        },
                    }
                },
            }
        }),
{
}

/// Whether the target is a glass or a bottle does not decide whether a pour
/// happens, nor what the target holds afterwards.
pub proof fn lemma_pour_ignores_target_kind(
    book: Option<RecipeBook>,
    h0: LiquidContainer,
    t0: LiquidContainer,
    h1: LiquidContainer,
    t1: LiquidContainer,
    poured: bool,
    u0: LiquidContainer,
    g1: LiquidContainer,
    u1: LiquidContainer,
    poured_u: bool,
)
    requires
        pours(book, h0, t0, h1, t1, poured),
        pours(book, h0, u0, g1, u1, poured_u),
        u0.content == t0.content,
        u0.level == t0.level,
        u0.max_doses == t0.max_doses,
    ensures
        poured == poured_u,
        h1.level == g1.level,
        h1.content_view() == g1.content_view(),
        t1.level == u1.level,
        t1.content_view() == u1.content_view(),
{
}

/// When the recipe book names the pair in the order "poured onto present", the
/// mix is the book's value for exactly that pair; only otherwise is the
/// reverse order used, and a pair named in neither order does not mix.
pub proof fn lemma_mix_prefers_poured_first(book: RecipeBook, poured: Seq<char>, present: Seq<char>)
    ensures
        book.contains_key((poured, present)) ==> mix_spec(book, poured, present) == Some(
            book[(poured, present)]@,
        ),
        !book.contains_key((poured, present)) && book.contains_key((present, poured))
            ==> mix_spec(book, poured, present) == Some(book[(present, poured)]@),
        !book.contains_key((poured, present)) && !book.contains_key((present, poured))
            ==> mix_spec(book, poured, present) is None,
{
}

/// The digit of a glass's fill sprite: its level kept between 1 and 4.
pub open spec fn glass_level_digit(level: usize) -> Seq<char> {
    if level <= 1 {
        "1"@
    } else if level == 2 {
        "2"@
    } else if level == 3 {
        "3"@
    } else {
        "4"@
    }
}

/// The sprite tag of a bottle holding `level` doses.
pub open spec fn bottle_tag(level: usize) -> Seq<char> {
    if level == 0 {
        "Empty"@
    } else if level == 1 {
        "1/5"@
    } else if level == 2 {
        "2/5"@
    } else if level == 3 {
        "3/5"@
    } else if level == 4 {
        "4/5"@
    } else {
        "Full"@
    }
}

/// The animation tag a container shows, or `None` where it keeps the one it has.
pub open spec fn liquid_tag_spec(c: LiquidContainer, recipes: Option<&RecipesConfig>) -> Option<
    Seq<char>,
> {
    if c.is_glass {
        if recipes is Some && c.content is Some {
            Some(recipes->0.beverages@[c.content->0@].texture@ + glass_level_digit(c.level))
        } else if c.content is None {
            Some("Empty"@)
        } else {
            None
        }
    } else {
        Some(bottle_tag(c.level))
    }
}

/// The animation tag that shows how full a container is: for the glass, the
/// drink's sprite sheet followed by its level (1 to 4); for a bottle, its
/// level in fifths.
pub fn liquid_visual_tag(container: &LiquidContainer, recipes: Option<&RecipesConfig>) -> (r:
    Option<String>)
    requires
        container.is_glass && recipes is Some && container.content is Some
            ==> recipes->0.beverages@.contains_key(container.content->0@),
    ensures
        opt_text(r) == liquid_tag_spec(*container, recipes),
{
    if container.is_glass {
        match (recipes, &container.content) {
            (Some(config), Some(content)) => {
                let beverage = config.beverages.get(content);
                let mut tag = match beverage {
                    Some(b) => b.texture.clone(),
                    None => String::new(),
                };
                let digit = if container.level <= 1 {
                    "1"
                } else if container.level == 2 {
                    "2"
                } else if container.level == 3 {
                    "3"
                } else {
                    "4"
                };
                tag.append(digit);
                Some(tag)
            },
            _ => {
                if container.content.is_none() {
                    Some(String::from_str("Empty"))
                } else {
                    None
                }
            },
        }
    } else {
        let tag = if container.level == 0 {
            "Empty"
        } else if container.level == 1 {
            "1/5"
        } else if container.level == 2 {
            "2/5"
        } else if container.level == 3 {
            "3/5"
        } else if container.level == 4 {
            "4/5"
        } else {
            "Full"
        };
        Some(String::from_str(tag))
    }
}

/// The tag of a glass holding a known drink is the drink's sprite sheet
/// followed by one decimal digit: the glass's level itself when it is between
/// 1 and 4, 1 for an empty level, and 4 above 4.
pub proof fn lemma_glass_tag_is_texture_and_level(c: LiquidContainer, recipes: Option<&RecipesConfig>)
    requires
        c.is_glass,
        recipes is Some,
        c.content is Some,
    ensures
        ({
            let tex = recipes->0.beverages@[c.content->0@].texture@;
            let tag = liquid_tag_spec(c, recipes)->0;
            let shown: int = if c.level < 1 {
                1
            } else if c.level > 4 {
                4
            } else {
                c.level as int
            };
            &&& liquid_tag_spec(c, recipes) is Some
            &&& tag.len() == tex.len() + 1
            &&& tag.subrange(0, tex.len() as int) == tex
            &&& tag.last() as int == '0' as int + shown
        }),
{
    reveal_strlit("1");
    reveal_strlit("2");
    reveal_strlit("3");
    reveal_strlit("4");
    let tex = recipes->0.beverages@[c.content->0@].texture@;
    let tag = liquid_tag_spec(c, recipes)->0;
    assert(tag.subrange(0, tex.len() as int) =~= tex);
}

/// The glass that stands on the tavern counter at the start: empty, for up to four doses.
pub fn counter_glass() -> (c: LiquidContainer)
    ensures
        c.content is None,
        c.level == 0,
        c.max_doses == 4,
        c.is_glass,
        c.is_consistent(),
{
    LiquidContainer { content: None, level: 0, max_doses: 4, is_glass: true }
}

/// A full bottle of `doses` doses of `liquid` (at least one dose).
pub fn full_bottle(liquid: &str, doses: usize) -> (c: LiquidContainer)
    requires
        doses > 0,
    ensures
        c.content_view() == Some(liquid@),
        c.level == doses,
        c.max_doses == doses,
        !c.is_glass,
        c.is_consistent(),
{
    LiquidContainer {
        content: Some(String::from_str(liquid)),
        level: doses,
        max_doses: doses,
        is_glass: false,
    }
}

/// The bottles on the alchemy table at the start: wine, unicorn tear and
/// mandrake root, five doses each.
pub fn alchemy_bottles() -> (v: Vec<LiquidContainer>)
    ensures
        v@.len() == 3,
        v@[0].content_view() == Some("Wine"@),
        v@[1].content_view() == Some("Unicorn Tear"@),
        v@[2].content_view() == Some("Mandrake Root"@),
        forall|i: int|
            0 <= i < 3 ==> {
                &&& #[trigger] v@[i].level == 5
                &&& v@[i].max_doses == 5
                &&& !v@[i].is_glass
                &&& v@[i].is_consistent()
            },
{
    let mut v: Vec<LiquidContainer> = Vec::new();
    v.push(full_bottle("Wine", 5));
    v.push(full_bottle("Unicorn Tear", 5));
    v.push(full_bottle("Mandrake Root", 5));
    v
}

} // verus!
