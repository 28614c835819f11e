use rusty_shooter::bot::{AssetReport, Bot, PathResult, SetupError, TickInput, TickMode, AIM_LOCK};
use rusty_shooter::character::Character;
use rusty_shooter::geometry::Point;
use rusty_shooter::kinds::{BotKind, Team};
use rusty_shooter::machine::Pose;
use rusty_shooter::machines::{
    COMBAT_AIM, COMBAT_HIT_REACTION, DEAD_STATE, DYING_STATE, HIT_SIGNAL, LOCO_IDLE, LOCO_WALK, STEP_SIGNAL,
};
use rusty_shooter::message::Message;
use rusty_shooter::perception::{Candidate, Item, RayHit};

fn p(x: i64, y: i64, z: i64) -> Point {
    Point::new(x, y, z)
}

fn input(bot: &Bot, elapsed: u64, delta: u64, position: Point) -> TickInput {
    TickInput {
        self_actor: 1,
        elapsed,
        delta,
        position,
        grounded: true,
        candidates: Vec::new(),
        items: Vec::new(),
        ammo: vec![10; bot.character.weapons.len()],
        hit_reaction_ended: false,
        has_navmesh: true,
        footstep_sounds: 4,
    }
}

fn candidate(actor: u64, position: Point) -> Candidate {
    Candidate { actor, body: actor + 100, position, in_frustum: true, hits: Vec::new() }
}

#[test]
fn damage_without_armor_rewinds_hit_reaction_and_locks_aim() {
    let mut bot = Bot::new(BotKind::Mutant, 7);
    bot.character.armor = 0;
    bot.character.damage(30);
    assert_eq!(bot.character.get_health(), 70);

    let mut tick = input(&bot, 1000, 100, p(0, 0, 0));
    tick.hit_reaction_ended = true;
    let out = bot.update(&tick);
    assert_eq!(out.mode, TickMode::Full);
    assert!(out.rewind_hit_reaction);
    assert_eq!(bot.aim_cooldown, AIM_LOCK - 100);
    assert_eq!(bot.last_health, 70);

    // The cooldown runs out after its full length, and not before.
    let mut elapsed = 1100;
    let mut ticks = 1;
    while bot.aim_cooldown > 0 {
        let t = input(&bot, elapsed, 100, p(0, 0, 0));
        let out = bot.update(&t);
        assert!(!out.rewind_hit_reaction);
        elapsed += 100;
        ticks += 1;
    }
    assert_eq!(ticks * 100, AIM_LOCK);
}

#[test]
fn damage_rewinds_only_a_finished_hit_reaction() {
    let mut bot = Bot::new(BotKind::Maw, 7);
    bot.character.damage(1);
    bot.character.damage(150);
    assert!(bot.character.get_health() < 100);
    let tick = input(&bot, 0, 16, p(0, 0, 0));
    let out = bot.update(&tick);
    assert!(!out.rewind_hit_reaction);
    assert_eq!(bot.aim_cooldown, AIM_LOCK - 16);
}

#[test]
fn damage_sends_the_combat_machine_to_hit_reaction() {
    let mut bot = Bot::new(BotKind::Parasite, 7);
    bot.character.armor = 0;
    bot.character.damage(5);
    let out = bot.update(&input(&bot, 0, 100, p(0, 0, 0)));
    assert_eq!(
        out.combat_pose,
        Some(Pose::Blend { from: rusty_shooter::machines::AIM_CLIP, to: rusty_shooter::machines::HIT_REACTION_CLIP, progress: 0, duration: 200 })
    );
    bot.update(&input(&bot, 100, 100, p(0, 0, 0)));
    assert_eq!(bot.combat.machine.active_state(), COMBAT_HIT_REACTION);
}

#[test]
fn dead_bot_only_runs_the_dying_machine() {
    let mut bot = Bot::new(BotKind::Mutant, 7);
    bot.character.armor = 0;
    bot.character.damage(100);
    assert!(bot.character.is_dead());
    let mut tick = input(&bot, 5000, 500, p(0, 0, 0));
    tick.candidates.push(candidate(2, p(1000, 0, 0)));
    bot.record_step_signal(STEP_SIGNAL);
    let out = bot.update(&tick);
    assert_eq!(out.mode, TickMode::Dying);
    assert!(out.dying_pose.is_some());
    assert!(out.locomotion_pose.is_none());
    assert!(out.combat_pose.is_none());
    assert!(out.footsteps.is_empty());
    assert!(out.path_request.is_none());
    assert!(bot.target.is_none());
    assert_eq!(bot.step_events.len(), 1);
    assert_eq!(bot.dying.machine.active_state(), DYING_STATE);
    assert!(!bot.can_be_removed());
    // The dying to dead transition lasts 1.5 s in all.
    bot.update(&input(&bot, 5500, 500, p(0, 0, 0)));
    assert!(!bot.can_be_removed());
    bot.update(&input(&bot, 6000, 500, p(0, 0, 0)));
    assert_eq!(bot.dying.machine.active_state(), DEAD_STATE);
    assert!(bot.can_be_removed());
}

#[test]
fn living_bot_runs_the_full_update() {
    let mut bot = Bot::new(BotKind::Mutant, 7);
    let out = bot.update(&input(&bot, 0, 16, p(0, 0, 0)));
    assert_eq!(out.mode, TickMode::Full);
    assert!(out.dying_pose.is_none());
    assert!(out.locomotion_pose.is_some());
    assert!(out.combat_pose.is_some());
}

#[test]
fn nearest_visible_candidate_is_the_target() {
    let mut bot = Bot::new(BotKind::Mutant, 7);
    let mut tick = input(&bot, 0, 16, p(0, 0, 0));
    tick.candidates.push(candidate(2, p(9000, 0, 0)));
    tick.candidates.push(candidate(3, p(5000, 0, 0)));
    tick.candidates.push(candidate(4, p(0, 0, 7000)));
    bot.update(&tick);
    assert_eq!(bot.target.unwrap().actor, 3);
    assert_eq!(bot.target.unwrap().position, p(5000, 0, 0));
}

#[test]
fn hidden_or_outside_candidates_are_never_targets() {
    let mut bot = Bot::new(BotKind::Mutant, 7);
    let mut tick = input(&bot, 0, 16, p(0, 0, 0));
    let mut outside = candidate(2, p(100, 0, 0));
    outside.in_frustum = false;
    let mut behind_wall = candidate(3, p(200, 0, 0));
    behind_wall.hits.push(RayHit::Static);
    let mut behind_other = candidate(4, p(300, 0, 0));
    behind_other.hits.push(RayHit::Body(555));
    let mut seen = candidate(5, p(9000, 0, 0));
    seen.hits.push(RayHit::Body(7));
    seen.hits.push(RayHit::Body(105));
    let me = candidate(1, p(50, 0, 0));
    tick.candidates = vec![outside, behind_wall, behind_other, me, seen];
    bot.update(&tick);
    assert_eq!(bot.target.unwrap().actor, 5);
}

#[test]
fn no_visible_candidate_means_no_target() {
    let mut bot = Bot::new(BotKind::Mutant, 7);
    let mut tick = input(&bot, 0, 16, p(0, 0, 0));
    let mut hidden = candidate(2, p(100, 0, 0));
    hidden.hits.push(RayHit::Static);
    tick.candidates.push(hidden);
    bot.update(&tick);
    assert!(bot.target.is_none());
}

#[test]
fn equally_near_candidates_pick_the_first() {
    let mut bot = Bot::new(BotKind::Mutant, 7);
    let mut tick = input(&bot, 0, 16, p(0, 0, 0));
    tick.candidates.push(candidate(2, p(3000, 0, 0)));
    tick.candidates.push(candidate(3, p(-3000, 0, 0)));
    bot.update(&tick);
    assert_eq!(bot.target.unwrap().actor, 2);
}

#[test]
fn removed_actor_is_no_longer_targeted() {
    let mut bot = Bot::new(BotKind::Mutant, 7);
    let mut tick = input(&bot, 0, 16, p(0, 0, 0));
    tick.candidates.push(candidate(2, p(3000, 0, 0)));
    bot.update(&tick);
    bot.on_actor_removed(9);
    assert!(bot.target.is_some());
    bot.on_actor_removed(2);
    assert!(bot.target.is_none());
}

#[test]
fn point_of_interest_is_rate_limited() {
    let mut bot = Bot::new(BotKind::Mutant, 7);
    let far = Item { position: p(10000, 0, 0), picked_up: false };
    let near = Item { position: p(1000, 0, 0), picked_up: false };
    let here = p(0, 0, 0);
    bot.select_point_of_interest(&vec![far], here, 0);
    assert_eq!(bot.point_of_interest, p(10000, 0, 0));
    bot.select_point_of_interest(&vec![far, near], here, 500);
    assert_eq!(bot.point_of_interest, p(10000, 0, 0));
    bot.select_point_of_interest(&vec![far, near], here, 1249);
    assert_eq!(bot.point_of_interest, p(10000, 0, 0));
    bot.select_point_of_interest(&vec![far, near], here, 1250);
    assert_eq!(bot.point_of_interest, p(1000, 0, 0));
}

#[test]
fn point_of_interest_skips_picked_up_items_during_update() {
    let mut bot = Bot::new(BotKind::Mutant, 7);
    let mut tick = input(&bot, 0, 16, p(0, 0, 0));
    tick.items.push(Item { position: p(100, 0, 0), picked_up: true });
    tick.items.push(Item { position: p(8000, 0, 0), picked_up: false });
    bot.update(&tick);
    assert_eq!(bot.point_of_interest, p(8000, 0, 0));
    assert_eq!(bot.last_poi_update, Some(0));
}

#[test]
fn path_rebuild_is_rate_limited() {
    let mut bot = Bot::new(BotKind::Mutant, 7);
    let here = p(0, 1000, 0);
    let out = bot.update(&input(&bot, 2000, 16, here));
    let request = out.path_request.unwrap();
    assert_eq!(request.from, p(0, 0, 0));
    assert_eq!(request.to, bot.point_of_interest);
    bot.on_path_result(PathResult::Built(vec![p(3, 0, 0), p(2, 0, 0), p(1, 0, 0)]), 2000);
    assert_eq!(bot.path.path_points().clone(), vec![p(1, 0, 0), p(2, 0, 0), p(3, 0, 0)]);
    assert_eq!(bot.path.cursor_index(), 0);

    let out = bot.update(&input(&bot, 2500, 16, here));
    assert!(out.path_request.is_none());
    let out = bot.update(&input(&bot, 3100, 16, here));
    assert!(out.path_request.is_some());
}

#[test]
fn failed_path_is_asked_for_again() {
    let mut bot = Bot::new(BotKind::Mutant, 7);
    let out = bot.update(&input(&bot, 2000, 16, p(0, 0, 0)));
    assert!(out.path_request.is_some());
    bot.on_path_result(PathResult::Failed, 2000);
    let out = bot.update(&input(&bot, 2016, 16, p(0, 0, 0)));
    assert!(out.path_request.is_some());
    bot.on_path_result(PathResult::Unresolved, 2016);
    assert_eq!(bot.last_path_rebuild, None);
}

#[test]
fn no_navmesh_no_path_request() {
    let mut bot = Bot::new(BotKind::Mutant, 7);
    let mut tick = input(&bot, 0, 16, p(0, 0, 0));
    tick.has_navmesh = false;
    let out = bot.update(&tick);
    assert!(out.path_request.is_none());
}

#[test]
fn path_cursor_advances_within_reach_and_stops_at_the_end() {
    let mut bot = Bot::new(BotKind::Mutant, 7);
    bot.on_path_result(PathResult::Built(vec![p(6000, 0, 0), p(3000, 0, 0), p(1000, 0, 0)]), 0);
    let here = p(0, 0, 0);
    bot.update(&input(&bot, 100, 16, here));
    assert_eq!(bot.move_target, p(1000, 0, 0));
    assert_eq!(bot.path.cursor_index(), 1);
    bot.update(&input(&bot, 116, 16, here));
    assert_eq!(bot.move_target, p(3000, 0, 0));
    assert_eq!(bot.path.cursor_index(), 1);
    let there = p(6000, 0, 0);
    bot.update(&input(&bot, 132, 16, p(2900, 0, 0)));
    assert_eq!(bot.path.cursor_index(), 2);
    bot.update(&input(&bot, 148, 16, there));
    bot.update(&input(&bot, 164, 16, there));
    assert_eq!(bot.path.cursor_index(), 2);
}

#[test]
fn empty_path_never_moves_the_cursor() {
    let mut bot = Bot::new(BotKind::Mutant, 7);
    bot.update(&input(&bot, 0, 16, p(0, 0, 0)));
    bot.update(&input(&bot, 16, 16, p(0, 0, 0)));
    assert_eq!(bot.path.cursor_index(), 0);
    assert!(bot.path.path_points().is_empty());
}

#[test]
fn movement_heads_for_the_waypoint_or_keeps_its_direction_in_the_air() {
    let mut bot = Bot::new(BotKind::Mutant, 7);
    bot.set_point_of_interest(p(50000, 0, 0), 0);
    bot.on_path_result(PathResult::Built(vec![p(9000, 0, 0), p(4000, 0, 3000)]), 0);
    let out = bot.update(&input(&bot, 100, 16, p(0, 0, 0)));
    assert_eq!(out.aim, Some(p(50000, 0, 0)));
    assert_eq!(out.movement, Some(p(4000, 0, 3000)));
    assert!(!out.jump);
    let mut airborne = input(&bot, 116, 16, p(100, 500, 0));
    airborne.grounded = false;
    let out = bot.update(&airborne);
    assert_eq!(out.movement, Some(p(4000, 0, 3000)));
}

#[test]
fn close_combat_stops_walking_and_jumps_toward_a_raised_target() {
    let mut bot = Bot::new(BotKind::Mutant, 7);
    let mut tick = input(&bot, 0, 16, p(0, 0, 0));
    tick.candidates.push(candidate(2, p(500, 1000, 0)));
    let out = bot.update(&tick);
    assert!(out.jump);
    assert_eq!(out.movement, None);
    assert_eq!(out.aim, Some(p(500, 1000, 0)));
    let mut low = input(&bot, 16, 16, p(0, 0, 0));
    low.candidates.push(candidate(2, p(500, 100, 0)));
    let out = bot.update(&low);
    assert!(!out.jump);
}

#[test]
fn footsteps_only_while_walking_on_the_ground() {
    let mut bot = Bot::new(BotKind::Mutant, 7);
    bot.record_step_signal(STEP_SIGNAL);
    // Idle at first: the walk transition only starts on this tick.
    let out = bot.update(&input(&bot, 0, 16, p(0, 0, 0)));
    assert_eq!(bot.locomotion.machine.transition_dest(), Some(LOCO_WALK));
    assert_eq!(out.footsteps.len(), 1);
    bot.record_step_signal(STEP_SIGNAL);
    bot.record_step_signal(STEP_SIGNAL);
    let mut airborne = input(&bot, 16, 16, p(10, 0, 0));
    airborne.grounded = false;
    let out = bot.update(&airborne);
    assert!(out.footsteps.is_empty());
    assert!(bot.step_events.is_empty());
    bot.record_step_signal(STEP_SIGNAL);
    bot.record_step_signal(STEP_SIGNAL);
    bot.record_step_signal(99);
    let out = bot.update(&input(&bot, 32, 16, p(20, 0, 0)));
    assert_eq!(out.footsteps.len(), 2);
    for m in out.footsteps.iter() {
        match m {
            Message::PlayFootstep { sound, position } => {
                assert!(*sound < 4);
                assert_eq!(*position, p(20, 0, 0));
            }
            _ => panic!("not a footstep"),
        }
    }
}

#[test]
fn footstep_sound_is_drawn_from_the_set() {
    let mut bot = Bot::new(BotKind::Mutant, 7);
    for _ in 0..50 {
        bot.record_step_signal(STEP_SIGNAL);
    }
    let mut tick = input(&bot, 0, 16, p(0, 0, 0));
    tick.footstep_sounds = 1;
    let out = bot.update(&tick);
    assert_eq!(out.footsteps.len(), 50);
    for m in out.footsteps.iter() {
        assert_eq!(*m, Message::PlayFootstep { sound: 0, position: p(0, 0, 0) });
    }
}

#[test]
fn footstep_signals_wait_while_not_walking() {
    let mut bot = Bot::new(BotKind::Mutant, 7);
    let mut tick = input(&bot, 0, 16, p(0, 0, 0));
    tick.candidates.push(candidate(2, p(500, 0, 0)));
    bot.record_step_signal(STEP_SIGNAL);
    let out = bot.update(&tick);
    assert_eq!(bot.locomotion.machine.active_state(), LOCO_IDLE);
    assert!(out.footsteps.is_empty());
    assert_eq!(bot.step_events.len(), 1);
}

#[test]
fn melee_hits_only_in_close_combat() {
    let mut bot = Bot::new(BotKind::Mutant, 7);
    bot.record_melee_signal(HIT_SIGNAL);
    bot.record_melee_signal(HIT_SIGNAL);
    let mut near = input(&bot, 0, 16, p(0, 0, 0));
    near.candidates.push(candidate(2, p(1500, 0, 0)));
    let out = bot.update(&near);
    assert_eq!(
        out.melee,
        vec![
            Message::DamageActor { actor: 2, amount: 20 },
            Message::DamageActor { actor: 2, amount: 20 }
        ]
    );
    assert!(bot.melee_events.is_empty());

    bot.record_melee_signal(HIT_SIGNAL);
    let mut far = input(&bot, 16, 16, p(0, 0, 0));
    far.candidates.push(candidate(2, p(2001, 0, 0)));
    let out = bot.update(&far);
    assert!(out.melee.is_empty());
    assert!(bot.melee_events.is_empty());

    bot.record_melee_signal(HIT_SIGNAL);
    let out = bot.update(&input(&bot, 32, 16, p(0, 0, 0)));
    assert!(out.melee.is_empty());
    assert_eq!(bot.melee_events.len(), 1);
}

#[test]
fn shoots_at_a_distant_target_while_aiming() {
    let mut bot = Bot::new(BotKind::Mutant, 7);
    bot.character.add_weapon(40);
    bot.character.add_weapon(41);
    let mut tick = input(&bot, 0, 16, p(0, 0, 0));
    tick.candidates.push(candidate(2, p(0, 0, 9000)));
    let out = bot.update(&tick);
    assert!(bot.can_shoot());
    assert_eq!(bot.combat.machine.active_state(), COMBAT_AIM);
    assert_eq!(out.shot, Some(Message::ShootWeapon { weapon: 41, direction: p(0, 0, 9000) }));
}

#[test]
fn no_shot_without_target_or_weapon() {
    let mut bot = Bot::new(BotKind::Mutant, 7);
    let mut tick = input(&bot, 0, 16, p(0, 0, 0));
    tick.candidates.push(candidate(2, p(0, 0, 9000)));
    let out = bot.update(&tick);
    assert!(out.shot.is_none());
    bot.character.add_weapon(40);
    let out = bot.update(&input(&bot, 16, 16, p(0, 0, 0)));
    assert!(out.shot.is_none());
}

#[test]
fn empty_weapon_is_switched_for_a_loaded_one() {
    let mut bot = Bot::new(BotKind::Mutant, 7);
    bot.character.add_weapon(40);
    bot.character.add_weapon(41);
    bot.character.add_weapon(42);
    bot.character.outbox.clear();
    let mut tick = input(&bot, 0, 16, p(0, 0, 0));
    tick.ammo = vec![0, 5, 5];
    bot.character.set_current_weapon(0);
    bot.character.outbox.clear();
    bot.update(&tick);
    assert_eq!(bot.character.current_weapon, 1);
    assert_eq!(
        bot.character.outbox,
        vec![
            Message::ShowWeapon { weapon: 40, state: false },
            Message::ShowWeapon { weapon: 41, state: true }
        ]
    );
    let mut all_empty = input(&bot, 16, 16, p(0, 0, 0));
    all_empty.ammo = vec![0, 0, 0];
    bot.update(&all_empty);
    assert_eq!(bot.character.current_weapon, 1);
}

#[test]
fn bot_definitions_per_kind() {
    let m = Bot::get_definition(BotKind::Mutant);
    assert_eq!(m.health, 100);
    assert_eq!(m.v_aim_angle_hack, -2);
    assert_eq!(m.spine, "Mutant:Spine");
    assert_eq!(m.weapon_scale, 26);
    let parasite = Bot::get_definition(BotKind::Parasite);
    assert_eq!(parasite.v_aim_angle_hack, 12);
    assert_eq!(parasite.weapon_hand_name, "RightHand");
    let maw = Bot::get_definition(BotKind::Maw);
    assert_eq!(maw.v_aim_angle_hack, 16);
    assert_eq!(maw.kind, BotKind::Maw);
}

#[test]
fn new_bot_is_named_after_its_kind() {
    let bot = Bot::new(BotKind::Parasite, 3);
    assert_eq!(bot.character.name, "Parasite");
    assert_eq!(bot.character.get_body(), 3);
    assert_eq!(bot.character.team(), Team::Neutral);
    let c = Character::new(String::from("Player"), 1);
    assert!(!c.linked);
}

fn report() -> AssetReport {
    AssetReport {
        model_loaded: true,
        clips_loaded: vec![true; 9],
        weapon_hand_found: true,
        legs_found: true,
        spine_found: true,
    }
}

#[test]
fn spawn_succeeds_with_every_asset() {
    let bot = Bot::spawn(BotKind::Maw, 4, &report()).unwrap();
    assert_eq!(bot.kind, BotKind::Maw);
    assert_eq!(bot.character.get_body(), 4);
    assert!(bot.spine_found);
}

#[test]
fn spawn_without_spine_only_loses_vertical_aim() {
    let mut r = report();
    r.spine_found = false;
    let bot = Bot::spawn(BotKind::Mutant, 4, &r).unwrap();
    assert!(!bot.spine_found);
}

#[test]
fn spawn_fails_on_missing_assets() {
    let mut r = report();
    r.model_loaded = false;
    assert_eq!(Bot::spawn(BotKind::Mutant, 4, &r).err(), Some(SetupError::MissingModel));
    let mut r = report();
    r.clips_loaded[5] = false;
    r.clips_loaded[7] = false;
    assert_eq!(Bot::spawn(BotKind::Mutant, 4, &r).err(), Some(SetupError::MissingClip(5)));
    let mut r = report();
    r.clips_loaded.truncate(3);
    assert_eq!(Bot::spawn(BotKind::Mutant, 4, &r).err(), Some(SetupError::MissingClip(3)));
    let mut r = report();
    r.legs_found = false;
    assert_eq!(Bot::spawn(BotKind::Mutant, 4, &r).err(), Some(SetupError::MissingJoint));
}

#[test]
fn new_bot_starts_at_every_entry_state() {
    let bot = Bot::new(BotKind::Parasite, 3);
    assert_eq!(bot.locomotion.machine.active_state(), LOCO_IDLE);
    assert_eq!(bot.combat.machine.active_state(), COMBAT_AIM);
    assert_eq!(bot.dying.machine.active_state(), DYING_STATE);
    assert!(bot.locomotion.machine.in_flight().is_none());
    assert_eq!(bot.definition.spine, "Spine");
    assert_eq!(bot.definition.left_leg_name, "LeftUpLeg");
    assert_eq!(bot.definition.right_leg_name, "RightUpLeg");
    assert_eq!(Bot::get_definition(BotKind::Mutant).weapon_hand_name, "Mutant:RightHand");
    assert_eq!(Bot::get_definition(BotKind::Maw).spine, "Spine");
}

#[test]
fn setting_the_point_of_interest_changes_nothing_else() {
    let mut bot = Bot::new(BotKind::Mutant, 3);
    bot.set_point_of_interest(p(5, 6, 7), 900);
    assert_eq!(bot.point_of_interest, p(5, 6, 7));
    assert_eq!(bot.last_poi_update, Some(900));
    assert!(bot.target.is_none());
    assert_eq!(bot.aim_cooldown, 0);
}

#[test]
fn aim_lock_runs_out_after_uneven_ticks() {
    let mut bot = Bot::new(BotKind::Mutant, 7);
    bot.character.armor = 0;
    bot.character.add_weapon(40);
    bot.character.damage(10);
    let mut elapsed = 0;
    let mut since = 0;
    for delta in [250u64, 300, 200, 49, 1, 400] {
        let mut tick = input(&bot, elapsed, delta, p(0, 0, 0));
        tick.candidates.push(candidate(2, p(0, 0, 9000)));
        let was_locked = bot.aim_cooldown > 0;
        let out = bot.update(&tick);
        if was_locked || since == 0 {
            assert!(out.shot.is_none());
        }
        since += delta;
        elapsed += delta;
        assert_eq!(bot.aim_cooldown == 0, since >= AIM_LOCK);
    }
}
