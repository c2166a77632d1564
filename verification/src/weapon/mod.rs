//! Weapons: a reload timer that turns a wish to fire into bullets.

pub mod bullet;
pub mod controller;

use vstd::prelude::*;
use crate::direction::Direction;
use crate::fixed::{fx_div, fx_div_spec, sat_sub, sat_sub_spec, ONE};
use crate::snapshot::Snapshot;
use crate::team::Team;
use crate::vector::Vec2;
use bullet::{Bullet, BulletView};
use controller::{FiringPolicy, WeaponController};

verus! {

/// What a weapon reads of the ship that carries it, taken once the ship
/// has moved.
#[derive(Debug, Clone, Copy)]
pub struct Firer {
    pub position: Vec2,
    pub velocity: Vec2,
    pub radius: i64,
    pub direction: Direction,
    pub team: Team,
    /// The bullet speed of the ship's first weapon, if it has a weapon.
    pub bullet_speed: Option<i64>,
}

/// A weapon.  Its reload time is positive.
#[derive(Debug, Clone, Copy)]
pub struct Weapon {
    pub(crate) weapon_controller: FiringPolicy,
    pub(crate) reload_time: i64,
    pub(crate) time_until_reloaded: i64,
    pub(crate) bullet_lifetime: i64,
    pub(crate) bullet_speed: i64,
}

/// The mathematical value of a `Weapon`.
pub ghost struct WeaponView {
    /// Decides when the weapon is to fire.
    pub weapon_controller: FiringPolicy,
    /// Seconds between two shots.
    pub reload_time: i64,
    /// Seconds until the next shot is ready.  A negative value holds
    /// shots that are overdue.
    pub time_until_reloaded: i64,
    /// Seconds a bullet of this weapon flies.
    pub bullet_lifetime: i64,
    /// The speed a bullet of this weapon adds to its ship's.
    pub bullet_speed: i64,
}

/// The values of a sequence of bullets.
pub open spec fn bullet_views(bullets: Seq<Bullet>) -> Seq<BulletView> {
    Seq::new(bullets.len(), |i: int| bullets[i]@)
}

impl WeaponView {
    /// What every weapon satisfies.
    pub open spec fn wf(self) -> bool {
        self.reload_time > 0
    }

    /// The timer after `delta_t` seconds, before any shot.
    pub open spec fn cooled(self, delta_t: i64) -> i64 {
        sat_sub_spec(self.time_until_reloaded, delta_t)
    }

    /// How many shots a firing weapon lets go in a step of `delta_t`
    /// seconds: one for a timer that has reached zero, and one more for
    /// each whole reload time it is overdue.
    pub open spec fn shots(self, delta_t: i64) -> nat {
        let timer = self.cooled(delta_t);
        if timer > 0 || self.reload_time <= 0 {
            0
        } else {
            ((-timer) / (self.reload_time as int) + 1) as nat
        }
    }

    /// The weapon after a step of `delta_t` seconds.  While firing, each
    /// shot adds the reload time to the timer; while silent, the timer does
    /// not fall below zero.
    pub open spec fn ticked(self, delta_t: i64, firing: bool) -> WeaponView {
        let timer = self.cooled(delta_t);
        WeaponView {
            time_until_reloaded: if firing {
                (timer + self.shots(delta_t) * self.reload_time) as i64
            } else if timer < 0 {
                0
            } else {
                timer
            },
            ..self
        }
    }

    /// The bullets a step of `delta_t` seconds lets go from `ship`.
    pub open spec fn fired(self, delta_t: i64, firing: bool, ship: Firer) -> Seq<BulletView> {
        if firing {
            Seq::new(
                self.shots(delta_t),
                |i: int| BulletView::fired(ship, self.bullet_lifetime, self.bullet_speed),
            )
        } else {
            Seq::empty()
        }
    }

    /// The player's weapon at a level: faster bullets and a shorter reload
    /// with each level, over a fixed range.
    pub open spec fn player_weapon(level: u32) -> WeaponView {
        let bullet_speed = (300 * ONE + 50 * ONE * level) as i64;
        let reload = fx_div_spec((4 * ONE) as i64, (level * ONE + 5 * ONE) as i64);
        WeaponView {
            weapon_controller: FiringPolicy::Mouse(controller::MouseWeaponController),
            reload_time: if reload < 1 {
                1
            } else {
                reload
            },
            time_until_reloaded: 0,
            bullet_lifetime: fx_div_spec((600 * ONE) as i64, bullet_speed),
            bullet_speed,
        }
    }

    /// The weapon of an enemy that fires only when its aim is good.
    pub open spec fn enemy_weapon() -> WeaponView {
        WeaponView {
            weapon_controller: FiringPolicy::Enemy(controller::EnemyWeaponController),
            reload_time: 2_500_000,
            time_until_reloaded: 0,
            bullet_lifetime: 5_000_000,
            bullet_speed: 200_000_000,
        }
    }

    /// The weapon of an enemy that fires whenever it can.
    pub open spec fn enemy_clone_weapon() -> WeaponView {
        WeaponView {
            weapon_controller: FiringPolicy::EnemyClone(controller::EnemyCloneWeaponController),
            reload_time: 1_000_000,
            time_until_reloaded: 0,
            bullet_lifetime: 5_000_000,
            bullet_speed: 200_000_000,
        }
    }
}

impl Weapon {
    /// What every weapon satisfies: its reload time is positive.
    #[verifier::type_invariant]
    pub open(crate) spec fn reloads(self) -> bool {
        self.reload_time > 0
    }

    /// The value of the weapon.
    pub open(crate) spec fn view(&self) -> WeaponView {
        WeaponView {
            weapon_controller: self.weapon_controller,
            reload_time: self.reload_time,
            time_until_reloaded: self.time_until_reloaded,
            bullet_lifetime: self.bullet_lifetime,
            bullet_speed: self.bullet_speed,
        }
    }

    /// A weapon ready to fire, or nothing where `reload_time` is not
    /// positive.
    pub fn new(
        weapon_controller: FiringPolicy,
        reload_time: i64,
        bullet_lifetime: i64,
        bullet_speed: i64,
    ) -> (r: Option<Weapon>)
        ensures
            r.is_some() == (reload_time > 0),
            r matches Some(weapon) ==> weapon@ == (WeaponView {
                weapon_controller,
                reload_time,
                time_until_reloaded: 0,
                bullet_lifetime,
                bullet_speed,
            }),
    {
        if reload_time > 0 {
            Some(
                Weapon {
                    weapon_controller,
                    reload_time,
                    time_until_reloaded: 0,
                    bullet_lifetime,
                    bullet_speed,
                },
            )
        } else {
            None
        }
    }

    /// The player's weapon at a level.
    pub fn new_player_weapon(level: u32) -> (r: Self)
        ensures
            r@ == WeaponView::player_weapon(level),
    {
        let bullet_speed: i64 = 300 * ONE + 50 * ONE * (level as i64);
        let range: i64 = 600 * ONE;
        let reload = fx_div(4 * ONE, (level as i64) * ONE + 5 * ONE);
        Weapon {
            weapon_controller: FiringPolicy::Mouse(controller::MouseWeaponController),
            reload_time: if reload < 1 {
                1
            } else {
                reload
            },
            time_until_reloaded: 0,
            bullet_lifetime: fx_div(range, bullet_speed),
            bullet_speed,
        }
    }

    /// The weapon of an enemy that fires only when its aim is good.
    pub fn new_enemy_weapon() -> (r: Self)
        ensures
            r@ == WeaponView::enemy_weapon(),
    {
        Weapon {
            weapon_controller: FiringPolicy::Enemy(controller::EnemyWeaponController),
            reload_time: 2_500_000,
            time_until_reloaded: 0,
            bullet_lifetime: 5_000_000,
            bullet_speed: 200_000_000,
        }
    }

    /// The weapon of an enemy that fires whenever it can.
    pub fn new_enemy_clone_weapon() -> (r: Self)
        ensures
            r@ == WeaponView::enemy_clone_weapon(),
    {
        Weapon {
            weapon_controller: FiringPolicy::EnemyClone(controller::EnemyCloneWeaponController),
            reload_time: 1_000_000,
            time_until_reloaded: 0,
            bullet_lifetime: 5_000_000,
            bullet_speed: 200_000_000,
        }
    }

    /// Seconds between two shots; positive.
    pub fn reload_time(&self) -> (r: i64)
        ensures
            r == self@.reload_time,
            r > 0,
    {
        proof {
            use_type_invariant(self);
        }
        self.reload_time
    }

    /// Seconds until the next shot is ready.
    pub fn time_until_reloaded(&self) -> (r: i64)
        ensures
            r == self@.time_until_reloaded,
    {
        self.time_until_reloaded
    }

    /// Seconds a bullet of this weapon flies.
    pub fn bullet_lifetime(&self) -> (r: i64)
        ensures
            r == self@.bullet_lifetime,
    {
        self.bullet_lifetime
    }

    /// The speed a bullet of this weapon adds to its ship's.
    pub fn bullet_speed(&self) -> (r: i64)
        ensures
            r == self@.bullet_speed,
    {
        self.bullet_speed
    }

    /// What decides when the weapon is to fire.
    pub fn weapon_controller(&self) -> (r: FiringPolicy)
        ensures
            r == self@.weapon_controller,
    {
        self.weapon_controller
    }

    /// Sets the timer.
    pub fn set_time_until_reloaded(&mut self, seconds: i64)
        ensures
            final(self)@ == (WeaponView { time_until_reloaded: seconds, ..old(self)@ }),
    {
        proof {
            use_type_invariant(&*self);
        }
        self.time_until_reloaded = seconds;
    }

    /// Advances the weapon by `delta_t` seconds, and appends to
    /// `bullets_to_add` the bullets it lets go from `ship`.
    pub fn update(
        &mut self,
        delta_t: i64,
        ship: &Firer,
        game: &Snapshot,
        bullets_to_add: &mut Vec<Bullet>,
    )
        ensures
            final(self)@ == old(self)@.ticked(
                delta_t,
                old(self)@.weapon_controller.tries_to_fire(*ship, game@),
            ),
            bullet_views(final(bullets_to_add)@) == bullet_views(old(bullets_to_add)@)
                + old(self)@.fired(
                delta_t,
                old(self)@.weapon_controller.tries_to_fire(*ship, game@),
                *ship,
            ),
    {
        proof {
            use_type_invariant(&*self);
        }
        let ghost before = self@;
        let ghost start = bullet_views(bullets_to_add@);
        let ghost shot = BulletView::fired(*ship, before.bullet_lifetime, before.bullet_speed);
        let cooled = sat_sub(self.time_until_reloaded, delta_t);
        let reload = self.reload_time;
        let lifetime = self.bullet_lifetime;
        let speed = self.bullet_speed;
        let mut timer = cooled;
        if self.weapon_controller.is_trying_to_fire(ship, game) {
            let ghost mut count: nat = 0;
            while timer <= 0
                invariant
                    reload > 0,
                    cooled <= 0 ==> timer == cooled + count * reload,
                    cooled <= 0 ==> timer <= reload,
                    cooled > 0 ==> timer == cooled && count == 0,
                    count > 0 ==> timer - reload <= 0,
                    count == 0 ==> timer == cooled,
                    bullet_views(bullets_to_add@) == start + Seq::new(count, |i: int| shot),
                    shot == BulletView::fired(*ship, lifetime, speed),
                decreases reload - timer,
            {
                let ghost earlier = bullets_to_add@;
                timer = timer + reload;
                bullets_to_add.push(Bullet::new_bullet(ship, lifetime, speed));
                proof {
                    assert((count + 1) * reload == count * reload + reload) by (nonlinear_arith);
                    assert(bullet_views(bullets_to_add@) =~= bullet_views(earlier).push(shot));
                    assert(bullet_views(earlier).push(shot) =~= start + Seq::new(
                        (count + 1) as nat,
                        |i: int| shot,
                    ));
                    count = count + 1;
                }
            }
            proof {
                if cooled <= 0 {
                    assert((count - 1) * reload == count * reload - reload) by (nonlinear_arith);
                    lemma_shot_count(cooled as int, reload as int, count as int);
                }
                assert(count == before.shots(delta_t));
            }
        } else if timer < 0 {
            timer = 0;
            assert(bullet_views(bullets_to_add@) =~= start + Seq::empty());
        } else {
            assert(bullet_views(bullets_to_add@) =~= start + Seq::empty());
        }
        self.time_until_reloaded = timer;
    }
}

/// The number of reload times that lift a timer at or below zero just above
/// zero.
proof fn lemma_shot_count(timer: int, reload: int, count: int)
    requires
        timer <= 0,
        reload > 0,
        count >= 1,
        timer + count * reload > 0,
        timer + (count - 1) * reload <= 0,
    ensures
        count == (-timer) / reload + 1,
{
    let q = (-timer) / reload;
    vstd::arithmetic::div_mod::lemma_fundamental_div_mod(-timer, reload);
    vstd::arithmetic::div_mod::lemma_mod_bound(-timer, reload);
    assert(count == q + 1) by (nonlinear_arith)
        requires
            -timer == reload * q + (-timer) % reload,
            0 <= (-timer) % reload < reload,
            timer + count * reload > 0,
            timer + (count - 1) * reload <= 0,
            reload > 0,
    ;
}

/// A firing weapon ends each step with its timer above zero and at most
/// one reload time: what was overdue has been fired, and nothing more.
pub proof fn lemma_catch_up_fire(weapon: WeaponView, delta_t: i64, ship: Firer)
    requires
        weapon.wf(),
    ensures
        ({
            let after = weapon.ticked(delta_t, true);
            &&& 0 < after.time_until_reloaded
            &&& weapon.cooled(delta_t) <= 0 ==> after.time_until_reloaded <= weapon.reload_time
            &&& after.time_until_reloaded == weapon.cooled(delta_t) + weapon.shots(delta_t)
                * weapon.reload_time
            &&& weapon.fired(delta_t, true, ship).len() == weapon.shots(delta_t)
        }),
{
    let timer = weapon.cooled(delta_t) as int;
    let reload = weapon.reload_time as int;
    if timer <= 0 {
        let q = (-timer) / reload;
        vstd::arithmetic::div_mod::lemma_fundamental_div_mod(-timer, reload);
        vstd::arithmetic::div_mod::lemma_mod_bound(-timer, reload);
        assert(0 < timer + (q + 1) * reload <= reload) by (nonlinear_arith)
            requires
                -timer == reload * q + (-timer) % reload,
                0 <= (-timer) % reload < reload,
        ;
        assert(q >= 0) by (nonlinear_arith)
            requires
                -timer == reload * q + (-timer) % reload,
                0 <= (-timer) % reload < reload,
                -timer >= 0,
                reload > 0,
        ;
    } else {
        assert(weapon.shots(delta_t) * reload == 0) by (nonlinear_arith)
            requires
                weapon.shots(delta_t) == 0,
        ;
    }
}

} // verus!
