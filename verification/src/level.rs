use vstd::prelude::*;

use crate::alchemy::RecipesConfig;
use crate::persona::{
    wait_indicator_offset, wait_indicator_offset_spec, texture_spec, Persona, PersonaView,
    PersonnaConfig,
};
use crate::text::{replace, replace_spec};
use crate::timer::{Timer, NANOS_PER_SEC};

verus! {

/// The customer delay on the first day, in seconds: room to learn the game.
pub const CUSTOMER_DELAY_START_SECS: u64 = 35;

/// The customer delay never drops below this, in seconds.
pub const CUSTOMER_DELAY_FLOOR_SECS: u64 = 12;

/// How much shorter the customer delay gets each day, in seconds.
pub const CUSTOMER_DELAY_DECAY_PER_DAY: u64 = 3;

/// Extra time at the end of a day to serve the last customer, in seconds.
pub const DAY_BUFFER_SECS: u64 = 10;

/// How long a customer takes to walk in once announced, in nanoseconds.
pub const PNJ_ARRIVAL_COOLDOWN_NANOS: u128 = 600_000_000;

/// The day being played (the first is day 1).
pub struct LevelDay {
    pub day: u32,
}

/// The state of the day being played.
pub struct CurrentLevel {
    /// The customers who come today, in order.
    pub customer_list: Vec<Persona>,
    /// Counts down to the next customer.
    pub customer_timer: Timer,
    /// Counts down to the end of the day.
    pub level_timer: Timer,
    /// The drink the current customer asked for.
    pub customer_order: String,
}

/// How many of today's customers have come in.
pub struct CurrentPnjIndex(pub usize);

/// A customer has arrived: the `index`-th of the day.
#[derive(Clone, Copy, Debug, PartialEq, Eq, Structural)]
pub struct CustomerArrived {
    pub index: usize,
}

/// The day is over.
#[derive(Clone, Copy, Debug, PartialEq, Eq, Structural)]
pub struct DayEnded;

/// How many customers come on `day`.
pub open spec fn customer_count_spec(day: u32) -> nat {
    (3 + day) as nat
}

/// The time between two customers on `day`, in seconds: it starts at 35 and
/// shrinks by 3 a day, down to a floor of 12.
pub open spec fn customer_delay_spec(day: u32) -> nat {
    let decay = CUSTOMER_DELAY_DECAY_PER_DAY * day;
    let d: nat = if decay >= CUSTOMER_DELAY_START_SECS {
        0
    } else {
        (CUSTOMER_DELAY_START_SECS - decay) as nat
    };
    if d < CUSTOMER_DELAY_FLOOR_SECS {
        CUSTOMER_DELAY_FLOOR_SECS as nat
    } else {
        d
    }
}

/// The length of `day`, in seconds: one delay per customer, plus a buffer.
pub open spec fn day_duration_spec(day: u32) -> nat {
    customer_delay_spec(day) * customer_count_spec(day) + DAY_BUFFER_SECS as nat
}

/// How many customers come on `day`.
pub fn customer_count(day: u32) -> (n: u64)
    ensures
        n == customer_count_spec(day),
{
    3 + day as u64
}

/// The time between two customers on `day`, in seconds.
pub fn customer_delay_secs(day: u32) -> (d: u64)
    ensures
        d == customer_delay_spec(day),
{
    let d = CUSTOMER_DELAY_START_SECS.saturating_sub(day as u64 * CUSTOMER_DELAY_DECAY_PER_DAY);
    if d < CUSTOMER_DELAY_FLOOR_SECS {
        CUSTOMER_DELAY_FLOOR_SECS
    } else {
        d
    }
}

/// The length of `day`, in seconds.
pub fn day_duration_secs(day: u32) -> (d: u64)
    ensures
        d == day_duration_spec(day),
{
    let delay = customer_delay_secs(day);
    let count = customer_count(day);
    assert(delay * count <= 35 * (3 + u32::MAX)) by (nonlinear_arith)
        requires
            delay <= 35,
            count <= 3 + u32::MAX,
    ;
    delay * count + DAY_BUFFER_SECS
}

/// The customer delay starts at 35 seconds and stays between 12 and 35.
pub proof fn lemma_customer_delay_bounds(day: u32)
    ensures
        customer_delay_spec(0) == CUSTOMER_DELAY_START_SECS,
        CUSTOMER_DELAY_FLOOR_SECS <= customer_delay_spec(day) <= CUSTOMER_DELAY_START_SECS,
{
}

/// Days never get slower: a later day has no longer a customer delay, and
/// one more customer for each day.
pub proof fn lemma_days_get_busier(d1: u32, d2: u32)
    requires
        d1 <= d2,
    ensures
        customer_delay_spec(d2) <= customer_delay_spec(d1),
        customer_count_spec(d2) == customer_count_spec(d1) + (d2 - d1),
{
}

/// A day is long enough for every customer's delay.
pub proof fn lemma_day_fits_its_customers(day: u32)
    ensures
        day_duration_spec(day) >= customer_delay_spec(day) * customer_count_spec(day),
{
}

/// Each day the customer delay is 3 seconds shorter than the day before,
/// until it reaches the 12 second floor; it starts at 35 seconds.
pub proof fn lemma_customer_delay_steps(day: u32)
    requires
        day < u32::MAX,
    ensures
        customer_delay_spec(0) == 35,
        customer_delay_spec((day + 1) as u32) == if customer_delay_spec(day) >= 15 {
            customer_delay_spec(day) - 3
        } else {
            12
        },
        day_duration_spec(day) == customer_delay_spec(day) * (3 + day) + 10,
{
}

/// The view of a list of customers.
pub open spec fn personas_view(v: Seq<Persona>) -> Seq<PersonaView> {
    v.map_values(|p: Persona| p@)
}

/// `list` is `amount` customers of `pool` (or all of them, if there are not
/// that many), none taken twice.
pub open spec fn is_sample_of(list: Seq<PersonaView>, pool: Seq<PersonaView>, amount: nat) -> bool {
    &&& list.len() == if amount < pool.len() {
        amount
    } else {
        pool.len()
    }
    &&& exists|picks: Seq<int>| #[trigger] picked_by(list, pool, picks)
}

/// `list` holds the customers of `pool` at the distinct positions `picks`.
pub open spec fn picked_by(list: Seq<PersonaView>, pool: Seq<PersonaView>, picks: Seq<int>) -> bool {
    &&& picks.len() == list.len()
    &&& forall|i: int| 0 <= i < picks.len() ==> 0 <= #[trigger] picks[i] < pool.len()
    &&& forall|i: int| 0 <= i < picks.len() ==> #[trigger] list[i] == pool[picks[i]]
    &&& forall|i: int, j: int| 0 <= i < j < picks.len() ==> picks[i] != picks[j]
}

/// `level` is a fresh start of `day` with customers drawn from `pool`.
pub open spec fn is_day_config(level: CurrentLevel, pool: Seq<PersonaView>, day: u32) -> bool {
    &&& is_sample_of(personas_view(level.customer_list@), pool, customer_count_spec(day))
    &&& level.customer_timer.is_fresh(customer_delay_spec(day) * NANOS_PER_SEC)
    &&& level.level_timer.is_fresh(day_duration_spec(day) * NANOS_PER_SEC)
    &&& level.customer_order@ == Seq::<char>::empty()
}

/// `amount` distinct positions below `length`, drawn at random by
/// `rand::seq::index::sample`, which documents that it returns exactly
/// `amount` distinct indices of `0..length`, in random order, and panics when
/// `amount > length`. Which positions come out is left to chance.
#[verifier::external_body]
fn sample_indices(length: usize, amount: usize) -> (r: Vec<usize>)
    requires
        amount <= length,
    ensures
        r@.len() == amount,
        forall|i: int| 0 <= i < r@.len() ==> #[trigger] r@[i] < length,
        forall|i: int, j: int| 0 <= i < j < r@.len() ==> r@[i] != r@[j],
{
    rand::seq::index::sample(&mut rand::rng(), length, amount).into_vec()
}

/// The start of `day` with the customers of `personas` at positions `picks`.
pub fn day_config_from_picks(personas: &Vec<Persona>, day: u32, picks: &Vec<usize>) -> (level:
    CurrentLevel)
    requires
        forall|i: int| 0 <= i < picks@.len() ==> #[trigger] picks@[i] < personas@.len(),
    ensures
        level.customer_list@.len() == picks@.len(),
        forall|i: int|
            0 <= i < picks@.len() ==> #[trigger] level.customer_list@[i]@
                == personas@[picks@[i] as int]@,
        level.customer_timer.is_fresh(customer_delay_spec(day) * NANOS_PER_SEC),
        level.level_timer.is_fresh(day_duration_spec(day) * NANOS_PER_SEC),
        level.customer_order@ == Seq::<char>::empty(),
{
    let mut customers: Vec<Persona> = Vec::new();
    let n = picks.len();
    let mut i: usize = 0;
    while i < n
        invariant
            n == picks@.len(),
            i <= n,
            customers@.len() == i,
            forall|k: int| 0 <= k < picks@.len() ==> #[trigger] picks@[k] < personas@.len(),
            forall|k: int|
                0 <= k < i ==> #[trigger] customers@[k]@ == personas@[picks@[k] as int]@,
        decreases n - i,
    {
        customers.push(personas[picks[i]].duplicate());
        i = i + 1;
    }
    CurrentLevel {
        customer_list: customers,
        customer_timer: Timer::from_secs(customer_delay_secs(day)),
        level_timer: Timer::from_secs(day_duration_secs(day)),
        customer_order: String::new(),
    }
}

/// The start of `day`: its timers, and its customers drawn at random from
/// the configuration, as many as the day has (or all, if there are fewer).
pub fn get_day_config(config: &PersonnaConfig, day: u32) -> (level: CurrentLevel)
    ensures
        is_day_config(level, personas_view(config.personas@), day),
{
    let count = customer_count(day);
    let len = config.personas.len();
    let amount: usize = if count < len as u64 {
        count as usize
    } else {
        len
    };
    let picks = sample_indices(len, amount);
    let level = day_config_from_picks(&config.personas, day, &picks);
    proof {
        let pool = personas_view(config.personas@);
        let list = personas_view(level.customer_list@);
        let w = picks@.map_values(|p: usize| p as int);
        assert forall|i: int| 0 <= i < w.len() implies #[trigger] list[i] == pool[w[i]] by {
            assert(level.customer_list@[i]@ == config.personas@[picks@[i] as int]@);
        }
        assert forall|i: int| 0 <= i < w.len() implies 0 <= #[trigger] w[i] < pool.len() by {
            assert(picks@[i] < len);
        }
        assert forall|i: int, j: int| 0 <= i < j < w.len() implies w[i] != w[j] by {
            assert(picks@[i] != picks@[j]);
        }
        assert(picked_by(list, pool, w));
    }
    level
}

/// What welcoming the first customer of a day gives: none if the day has no
/// customer, else the first one, and the count of customers come in.
pub open spec fn first_customer_spec(n: nat, pnj: usize, arrived: Option<CustomerArrived>) -> bool {
    if n == 0 {
        pnj == 0 && arrived is None
    } else {
        pnj == 1 && arrived == Some(CustomerArrived { index: 0 })
    }
}

/// Welcomes the first customer of the day, if there is one.
pub fn spawn_first_customer(current_level: &CurrentLevel, pnj: &mut CurrentPnjIndex) -> (r: Option<
    CustomerArrived,
>)
    ensures
        first_customer_spec(current_level.customer_list@.len(), final(pnj).0, r),
{
    if current_level.customer_list.len() == 0 {
        pnj.0 = 0;
        return None;
    }
    pnj.0 = 1;
    Some(CustomerArrived { index: 0 })
}

/// No more customers than the day has have come in.
pub open spec fn loop_wf(level: CurrentLevel, pnj: CurrentPnjIndex) -> bool {
    pnj.0 <= level.customer_list@.len()
}

/// Starts the day `level_day` (day 1 if none was played yet) and welcomes its
/// first customer.
pub fn init_level_loop(config: &PersonnaConfig, level_day: Option<u32>) -> (r: (
    LevelDay,
    CurrentLevel,
    CurrentPnjIndex,
    Option<CustomerArrived>,
))
    ensures
        r.0.day == match level_day {
            Some(d) => d,
            None => 1,
        },
        is_day_config(r.1, personas_view(config.personas@), r.0.day),
        first_customer_spec(r.1.customer_list@.len(), r.2.0, r.3),
        loop_wf(r.1, r.2),
{
    let day = match level_day {
        Some(d) => d,
        None => 1,
    };
    let current_level = get_day_config(config, day);
    let mut pnj = CurrentPnjIndex(0);
    let arrived = spawn_first_customer(&current_level, &mut pnj);
    (LevelDay { day }, current_level, pnj, arrived)
}

/// Advances the day by `delta` nanoseconds. When the day's time runs out, the
/// day ends and the next one starts with new customers. Otherwise, while some
/// customers have still to come, the next one comes in each time the
/// customer delay runs out, and the delay starts over if more are to come.
pub fn level_loop_system(
    delta: u128,
    current_level: &mut CurrentLevel,
    config: &PersonnaConfig,
    level_day: &mut LevelDay,
    pnj: &mut CurrentPnjIndex,
) -> (r: (Option<DayEnded>, Option<CustomerArrived>))
    requires
        old(current_level).level_timer.finishes_with(delta as nat) ==> old(level_day).day
            < u32::MAX,
    ensures
        loop_wf(*old(current_level), *old(pnj)) ==> loop_wf(*final(current_level), *final(pnj)),
        old(current_level).level_timer.finishes_with(delta as nat) ==> {
            &&& r.0 is Some
            &&& final(level_day).day == old(level_day).day + 1
            &&& is_day_config(
                *final(current_level),
                personas_view(config.personas@),
                final(level_day).day,
            )
            &&& first_customer_spec(final(current_level).customer_list@.len(), final(pnj).0, r.1)
        },
        !old(current_level).level_timer.finishes_with(delta as nat) ==> {
            &&& r.0 is None
            &&& final(level_day).day == old(level_day).day
            &&& final(current_level).level_timer.is_tick_of(
                old(current_level).level_timer,
                delta as nat,
            )
            &&& final(current_level).customer_list == old(current_level).customer_list
            &&& final(current_level).customer_order == old(current_level).customer_order
            &&& if old(current_level).level_timer.spec_finished() || old(pnj).0
                >= old(current_level).customer_list@.len() {
                &&& final(current_level).customer_timer == old(current_level).customer_timer
                &&& final(pnj).0 == old(pnj).0
                &&& r.1 is None
            } else if old(current_level).customer_timer.finishes_with(delta as nat) {
                &&& r.1 == Some(CustomerArrived { index: old(pnj).0 })
                &&& final(pnj).0 == old(pnj).0 + 1
                &&& if final(pnj).0 < old(current_level).customer_list@.len() {
                    final(current_level).customer_timer.is_fresh(
                        old(current_level).customer_timer.spec_duration() as int,
                    )
                } else {
                    final(current_level).customer_timer.is_tick_of(
                        old(current_level).customer_timer,
                        delta as nat,
                    )
                }
            } else {
                &&& r.1 is None
                &&& final(pnj).0 == old(pnj).0
                &&& final(current_level).customer_timer.is_tick_of(
                    old(current_level).customer_timer,
                    delta as nat,
                )
            }
        },
{
    current_level.level_timer.tick(delta);
    let pnj_index = pnj.0;
    if current_level.level_timer.just_finished() {
        level_day.day = level_day.day + 1;
        *current_level = get_day_config(config, level_day.day);
        let arrived = spawn_first_customer(current_level, pnj);
        return (Some(DayEnded), arrived);
    }
    if current_level.level_timer.is_finished() {
        return (None, None);
    }
    if pnj_index < current_level.customer_list.len() {
        current_level.customer_timer.tick(delta);
        if current_level.customer_timer.just_finished() {
            pnj.0 = pnj_index + 1;
            if pnj.0 < current_level.customer_list.len() {
                current_level.customer_timer.reset();
            }
            return (None, Some(CustomerArrived { index: pnj_index }));
        }
    }
    (None, None)
}

/// The name of the drink that the `i`-th recipe makes.
pub fn order_for_recipe(config: &RecipesConfig, i: usize) -> (order: String)
    requires
        i < config.recipes.spec_len(),
        config.recipes_make_drinks(),
    ensures
        order@ == config.beverages@[config.recipes.spec_value_at(i as int)@].name@,
{
    let (_, result) = config.recipes.entry_at(i);
    match config.beverages.get(result) {
        Some(drink) => drink.name.clone(),
        None => String::new(),
    }
}

/// A position below `len` drawn at random by `rand::seq::IteratorRandom::choose`
/// over `0..len`, which documents that it returns `None` only for an empty
/// range. Which position comes out is left to chance.
#[verifier::external_body]
fn choose_index(len: usize) -> (r: Option<usize>)
    ensures
        r is None <==> len == 0,
        r matches Some(i) ==> i < len,
{
    rand::seq::IteratorRandom::choose(0..len, &mut rand::rng())
}

/// For each of `arrivals` customers that came in, picks at random the drink
/// the customer orders: the result of one of the recipes.
pub fn select_recipe(current_level: &mut CurrentLevel, arrivals: usize, config: &RecipesConfig)
    requires
        arrivals > 0 ==> {
            &&& exists|k: (Seq<char>, Seq<char>)| config.recipes@.contains_key(k)
            &&& config.recipes_make_drinks()
        },
    ensures
        final(current_level).customer_list == old(current_level).customer_list,
        final(current_level).customer_timer == old(current_level).customer_timer,
        final(current_level).level_timer == old(current_level).level_timer,
        arrivals == 0 ==> final(current_level).customer_order == old(
            current_level,
        ).customer_order,
        arrivals > 0 ==> exists|i: int|
            0 <= i < config.recipes.spec_len() && final(current_level).customer_order@
                == config.beverages@[#[trigger] config.recipes.spec_value_at(i)@].name@,
{
    if arrivals > 0 {
        proof {
            config.recipes.lemma_nonempty();
        }
    }
    let mut k: usize = 0;
    while k < arrivals
        invariant
            k <= arrivals,
            arrivals > 0 ==> config.recipes.spec_len() > 0,
            arrivals > 0 ==> config.recipes_make_drinks(),
            current_level.customer_list == old(current_level).customer_list,
            current_level.customer_timer == old(current_level).customer_timer,
            current_level.level_timer == old(current_level).level_timer,
            k == 0 ==> current_level.customer_order == old(current_level).customer_order,
            k > 0 ==> exists|i: int|
                0 <= i < config.recipes.spec_len() && current_level.customer_order@
                    == config.beverages@[#[trigger] config.recipes.spec_value_at(i)@].name@,
        decreases arrivals - k,
    {
        match choose_index(config.recipes.len()) {
            Some(i) => {
                current_level.customer_order = order_for_recipe(config, i);
            },
            None => {},
        }
        k = k + 1;
    }
}

/// What a customer says on arrival: the first greeting, with `{order}` and
/// `{name}` filled in.
pub open spec fn customer_text_spec(p: PersonaView, order: Seq<char>) -> Seq<char> {
    replace_spec(replace_spec(p.greetings[0], "{order}"@, order), "{name}"@, p.name)
}

/// Only the first greeting is said: customers who share their first
/// greeting and their name say the same, whatever their other greetings.
pub proof fn lemma_customer_text_uses_first_greeting(p: PersonaView, q: PersonaView, order: Seq<char>)
    requires
        p.greetings.len() > 0,
        q.greetings.len() > 0,
        p.greetings[0] == q.greetings[0],
        p.name == q.name,
    ensures
        customer_text_spec(p, order) == customer_text_spec(q, order),
{
}

/// A first greeting with no `{order}` and no `{name}` is said as it is.
pub proof fn lemma_plain_greeting_said_verbatim(p: PersonaView, order: Seq<char>)
    requires
        p.greetings.len() > 0,
        forall|i: int|
            0 <= i && i + 7 <= p.greetings[0].len() ==> #[trigger] p.greetings[0].subrange(i, i + 7)
                != "{order}"@,
        forall|i: int|
            0 <= i && i + 6 <= p.greetings[0].len() ==> #[trigger] p.greetings[0].subrange(i, i + 6)
                != "{name}"@,
    ensures
        customer_text_spec(p, order) == p.greetings[0],
{
    reveal_strlit("{order}");
    reveal_strlit("{name}");
    crate::text::lemma_replace_without_pattern(p.greetings[0], "{order}"@, order);
    crate::text::lemma_replace_without_pattern(p.greetings[0], "{name}"@, p.name);
}

/// What the `index`-th customer of the day says on arrival, or `None` if the
/// day has no such customer.
pub fn write_customer_text(current_level: &CurrentLevel, index: usize) -> (r: Option<String>)
    requires
        index < current_level.customer_list@.len() ==> current_level.customer_list@[index as int]@.greetings.len() > 0,
    ensures
        index >= current_level.customer_list@.len() ==> r is None,
        index < current_level.customer_list@.len() ==> (r matches Some(t) && t@
            == customer_text_spec(
            current_level.customer_list@[index as int]@,
            current_level.customer_order@,
        )),
{
    if index >= current_level.customer_list.len() {
        return None;
    }
    let customer = &current_level.customer_list[index];
    proof {
        reveal_strlit("{order}");
        reveal_strlit("{name}");
        assert(customer.greetings@.map_values(|g: String| g@)[0] == customer.greetings@[0]@);
    }
    let with_order = replace(
        customer.greetings[0].as_str(),
        "{order}",
        current_level.customer_order.as_str(),
    );
    let text = replace(with_order.as_str(), "{name}", customer.name.as_str());
    Some(text)
}

/// A customer announced but not yet shown: shown once its timer runs out.
pub struct PendingPnjSpawn {
    pub index: usize,
    pub timer: Timer,
}

/// One customer waiting to walk in for each arrival, in order.
pub fn queue_pnj_spawn(arrivals: &Vec<CustomerArrived>) -> (r: Vec<PendingPnjSpawn>)
    ensures
        r@.len() == arrivals@.len(),
        forall|i: int|
            0 <= i < r@.len() ==> {
                &&& #[trigger] r@[i].index == arrivals@[i].index
                &&& r@[i].timer.is_fresh(PNJ_ARRIVAL_COOLDOWN_NANOS as int)
            },
{
    let mut r: Vec<PendingPnjSpawn> = Vec::new();
    let n = arrivals.len();
    let mut i: usize = 0;
    while i < n
        invariant
            n == arrivals@.len(),
            i <= n,
            r@.len() == i,
            forall|k: int|
                0 <= k < i ==> {
                    &&& #[trigger] r@[k].index == arrivals@[k].index
                    &&& r@[k].timer.is_fresh(PNJ_ARRIVAL_COOLDOWN_NANOS as int)
                },
        decreases n - i,
    {
        r.push(PendingPnjSpawn { index: arrivals[i].index, timer: Timer::new(PNJ_ARRIVAL_COOLDOWN_NANOS) });
        i = i + 1;
    }
    r
}

/// How to show a customer: its sprite sheet, where its wait indicator sits
/// above it, and how long the indicator takes to shrink away (nanoseconds).
pub struct PnjSpawnPlan {
    pub texture: String,
    pub indicator_offset: (i32, i32),
    pub indicator_duration: u128,
}

/// What becomes of a waiting customer after a tick.
pub enum PendingOutcome {
    /// Still walking in.
    Waiting,
    /// Done waiting, but the day has no such customer: dropped.
    Dropped,
    /// Done waiting: show it as planned.
    Spawn(PnjSpawnPlan),
}

/// Advances a waiting customer by `delta` nanoseconds and, once its wait is
/// over, says how to show it.
pub fn spawn_pnj(
    pending: &mut PendingPnjSpawn,
    delta: u128,
    current_level: &CurrentLevel,
    config: &PersonnaConfig,
) -> (r: PendingOutcome)
    ensures
        final(pending).index == old(pending).index,
        final(pending).timer.is_tick_of(old(pending).timer, delta as nat),
        !final(pending).timer.spec_finished() ==> r is Waiting,
        final(pending).timer.spec_finished() && old(pending).index
            >= current_level.customer_list@.len() ==> r is Dropped,
        final(pending).timer.spec_finished() && old(pending).index
            < current_level.customer_list@.len() ==> match r {
            PendingOutcome::Spawn(plan) => {
                let t = texture_spec(
                    config.race_profiles@,
                    current_level.customer_list@[old(pending).index as int]@,
                );
                &&& plan.texture@ == t
                &&& plan.indicator_offset == wait_indicator_offset_spec(t)
                &&& plan.indicator_duration == current_level.customer_timer.spec_duration()
            },
            _ => false,
        },
{
    pending.timer.tick(delta);
    if !pending.timer.is_finished() {
        return PendingOutcome::Waiting;
    }
    if pending.index >= current_level.customer_list.len() {
        return PendingOutcome::Dropped;
    }
    let customer = &current_level.customer_list[pending.index];
    let texture = config.texture_for(customer);
    let offset = wait_indicator_offset(texture.as_str());
    PendingOutcome::Spawn(
        PnjSpawnPlan {
            texture,
            indicator_offset: offset,
            indicator_duration: current_level.customer_timer.duration(),
        },
    )
}

} // verus!
