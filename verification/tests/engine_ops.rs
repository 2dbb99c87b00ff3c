//! Engine-level tests: construction, fitness settling, selection, survivor
//! ranking, generation accounting and reports.

use gp_engine::rng::chance;
use gp_engine::Action;
use gp_engine::Member;
use gp_engine::Node;
use gp_engine::GP;

fn leaf_x() -> Node {
    Node { action: Action::X, arg1: None, arg2: None }
}

fn leaf_num(value: u64) -> Node {
    Node { action: Action::Terminal(value), arg1: None, arg2: None }
}

fn branch(name: &str, arg1: Node, arg2: Node) -> Node {
    Node {
        action: Action::Function(name.to_string()),
        arg1: Some(Box::new(arg1)),
        arg2: Some(Box::new(arg2)),
    }
}

fn member(tag: u64, fitness: f64) -> Member {
    Member { chromosome: leaf_num(tag), fitness: fitness.to_bits() }
}

fn tag_of(member: &Member) -> u64 {
    match member.chromosome.action {
        Action::Terminal(tag) => tag,
        _ => panic!("tagged members hold a number"),
    }
}

#[test]
fn new_pairs_the_flat_sample_list() {
    let gp = GP::new(vec![
        1.0f64.to_bits(),
        2.0f64.to_bits(),
        3.0f64.to_bits(),
        4.0f64.to_bits(),
    ]);
    assert_eq!(gp.fitness.len(), 2);
    assert_eq!(gp.fitness[0].x, 1.0f64.to_bits());
    assert_eq!(gp.fitness[0].y, 2.0f64.to_bits());
    assert_eq!(gp.fitness[1].x, 3.0f64.to_bits());
    assert_eq!(gp.fitness[1].y, 4.0f64.to_bits());
}

#[test]
fn new_drops_a_trailing_unpaired_value() {
    let gp = GP::new(vec![1, 2, 3]);
    assert_eq!(gp.fitness.len(), 1);
    assert_eq!(gp.fitness[0].x, 1);
    assert_eq!(gp.fitness[0].y, 2);
}

#[test]
fn new_starts_with_the_default_settings() {
    let gp = GP::new(vec![]);
    assert_eq!(gp.config.pop_size, 4000);
    assert_eq!(gp.config.max_generations, 51);
    assert_eq!(gp.config.mutate_prob_per_mille, 20);
    assert_eq!(gp.config.selection, "tournament");
    assert_eq!(gp.config.fitness_order, "desc");
    assert_eq!(gp.config.chromosome_function, ["+", "-", "*", "/", "sin", "cos", "exp"]);
    assert_eq!(gp.config.chromosome_terminal, ["x", "R"]);
    assert_eq!(
        gp.config.chromosome_combined,
        ["+", "-", "*", "/", "sin", "cos", "exp", "x", "R"]
    );
    assert_eq!(gp.config.max_fitness_evals, 20000);
    assert_eq!(gp.config.tree_limit_initial, 6);
    assert_eq!(gp.config.tree_limit_running, 17);
    assert_eq!(gp.gen, 0);
    assert_eq!(gp.fitness_evaluations, 0);
    assert!(!gp.done);
    assert!(gp.population.is_empty());
    assert!(gp.check_wf());
}

#[test]
fn settling_keeps_an_ordinary_score() {
    let mut gp = GP::new(vec![]);
    let raw = 2.5f64.to_bits();
    assert_eq!(gp.record_fitness(raw), raw);
    assert_eq!(gp.fitness_evaluations, 1);
}

#[test]
fn settling_forces_nan_to_the_desc_sentinel() {
    let mut gp = GP::new(vec![]);
    let raw = f64::NAN.to_bits();
    assert_eq!(gp.record_fitness(raw), 9999999.0f64.to_bits());
}

#[test]
fn settling_forces_nan_to_zero_under_asc_order() {
    let mut gp = GP::new(vec![]);
    gp.config.fitness_order = "asc".to_string();
    let raw = f64::NAN.to_bits();
    assert_eq!(gp.record_fitness(raw), 0.0f64.to_bits());
}

#[test]
fn division_by_zero_settles_to_the_sentinel() {
    // x / (x - x) at x = 0 leaves the real line; the settled score is the
    // sentinel, not a propagated non-number
    let tree = branch("/", leaf_x(), branch("-", leaf_x(), leaf_x()));
    let x = 0.0f64;
    let predicted = x / (x - x);
    assert!(predicted.is_nan());
    let error_sum = (5.0f64 - predicted).abs();
    assert!(error_sum.is_nan());
    let mut gp = GP::new(vec![0.0f64.to_bits(), 5.0f64.to_bits()]);
    let key = gp.record_fitness(error_sum.to_bits());
    assert_eq!(key, 9999999.0f64.to_bits());
    assert_eq!(tree.chromosome_to_string(), "(x / (x - x))");
}

#[test]
fn chance_of_one_in_one_is_certain() {
    for _ in 0..100 {
        assert!(chance(1));
    }
}

#[test]
fn selection_returns_a_population_member() {
    let mut gp = GP::new(vec![]);
    gp.population.push(member(1, 3.0));
    gp.population.push(member(2, 1.0));
    gp.population.push(member(3, 2.0));
    for _ in 0..100 {
        let picked = gp.select_from_population();
        assert!((1..=3).contains(&tag_of(&picked)));
    }
}

#[test]
fn selection_of_a_single_member_returns_it() {
    let mut gp = GP::new(vec![]);
    gp.population.push(member(7, 4.0));
    for _ in 0..20 {
        assert_eq!(tag_of(&gp.select_from_population()), 7);
    }
}

#[test]
fn survivors_under_desc_order_are_the_two_smallest_scores() {
    // the fixed four-candidate ranking: under "desc" the sort falls from
    // front to back and the tail holds the numerically smallest scores
    let gp = GP::new(vec![]);
    let (first, second) = gp.survivor_pair(
        member(1, 1.0),
        member(2, 2.0),
        member(3, 3.0),
        member(4, 4.0),
    );
    assert_eq!(tag_of(&first), 1);
    assert_eq!(tag_of(&second), 2);
}

#[test]
fn survivors_under_asc_order_are_the_two_largest_scores() {
    let mut gp = GP::new(vec![]);
    gp.config.fitness_order = "asc".to_string();
    let (first, second) = gp.survivor_pair(
        member(1, 1.0),
        member(2, 2.0),
        member(3, 3.0),
        member(4, 4.0),
    );
    assert_eq!(tag_of(&first), 4);
    assert_eq!(tag_of(&second), 3);
}

#[test]
fn crossover_keeps_the_running_height_limit() {
    let mut gp = GP::new(vec![]);
    gp.config.tree_limit_initial = 2;
    gp.config.tree_limit_running = 2;
    assert!(gp.check_wf());
    // both parents stand exactly at the limit; writing the whole second
    // parent over a leaf of the first would reach height three
    let parent1 = branch("+", leaf_x(), leaf_x());
    let parent2 = branch("*", leaf_num(7), leaf_num(7));
    let mut saw_rejection = false;
    for _ in 0..300 {
        let offspring = gp.crossover_function(&parent1, &parent2);
        assert!(offspring.count_node_depth() <= 2);
        if offspring.chromosome_to_string() == "(x + x)" {
            // every accepted offspring carries a 7 from the second parent,
            // so this is the first parent back unchanged
            saw_rejection = true;
        }
    }
    assert!(saw_rejection);
}

#[test]
fn crossover_offspring_stay_well_formed() {
    let gp = GP::new(vec![]);
    let parent1 = gp.generate_chromosome(false);
    let parent2 = gp.generate_chromosome(true);
    for _ in 0..50 {
        let offspring = gp.crossover_function(&parent1, &parent2);
        assert!(offspring.check_wf());
        assert!(offspring.depth_at_most(gp.config.tree_limit_running));
    }
}

#[test]
fn complete_generation_tops_up_from_the_old_front_and_sorts() {
    let mut gp = GP::new(vec![]);
    gp.population.push(member(1, 3.0));
    gp.population.push(member(2, 1.0));
    gp.population.push(member(3, 2.0));
    let newcomers = vec![member(4, 5.0)];
    let report = gp.complete_generation(newcomers);
    // the shortfall was covered by the front of the old population
    let tags: Vec<u64> = gp.population.iter().map(tag_of).collect();
    assert_eq!(gp.population.len(), 3);
    assert_eq!(tags, vec![4, 1, 2]);
    // sorted falling by score, the best — smallest — last
    assert_eq!(gp.population[0].fitness, 5.0f64.to_bits());
    assert_eq!(gp.population[1].fitness, 3.0f64.to_bits());
    assert_eq!(gp.population[2].fitness, 1.0f64.to_bits());
    assert_eq!(report.fitness, 1.0f64.to_bits());
    assert!(!report.done);
}

#[test]
fn after_sorting_the_last_member_is_best_under_either_order() {
    for order in ["desc", "asc"] {
        let mut gp = GP::new(vec![]);
        gp.config.fitness_order = order.to_string();
        gp.population.push(member(1, 2.0));
        gp.population.push(member(2, 9999999.0));
        gp.population.push(member(3, 0.5));
        gp.population.push(member(4, 4.0));
        let report = gp.complete_generation(vec![member(5, 7.0)]);
        let last = gp.population.last().unwrap();
        for other in &gp.population {
            let last_score = f64::from_bits(last.fitness);
            let other_score = f64::from_bits(other.fitness);
            if order == "desc" {
                assert!(last_score <= other_score);
            } else {
                assert!(last_score >= other_score);
            }
        }
        assert_eq!(report.fitness, last.fitness);
    }
}

#[test]
fn begin_generation_stops_at_the_generation_bound() {
    let mut gp = GP::new(vec![]);
    gp.config.max_generations = 1;
    gp.population.push(member(1, 5.0));
    assert!(gp.check_wf());
    let report = gp.begin_generation().expect("the bound is one generation");
    assert!(report.done);
    assert!(gp.done);
    assert_eq!(report.gen, 1);
    assert_eq!(report.fitness, 5.0f64.to_bits());
}

#[test]
fn begin_generation_stops_below_the_fitness_threshold() {
    let mut gp = GP::new(vec![]);
    gp.population.push(member(1, 0.0005));
    let report = gp.begin_generation().expect("the score beats the threshold");
    assert!(report.done);
    assert_eq!(report.gen, 1);
}

#[test]
fn begin_generation_continues_otherwise() {
    let mut gp = GP::new(vec![]);
    gp.population.push(member(1, 5.0));
    assert!(gp.begin_generation().is_none());
    assert!(!gp.done);
    assert_eq!(gp.gen, 1);
}

#[test]
fn reports_after_done_repeat_the_final_result() {
    let mut gp = GP::new(vec![]);
    gp.config.max_generations = 1;
    gp.population.push(member(1, 5.0));
    let first = gp.begin_generation().expect("the bound is one generation");
    let second = gp.begin_generation().expect("a finished run reports at once");
    let third = gp.begin_generation().expect("and keeps doing so");
    for later in [&second, &third] {
        assert_eq!(later.done, first.done);
        assert_eq!(later.fitness, first.fitness);
        assert_eq!(later.gen, first.gen);
        assert_eq!(later.best, first.best);
        assert_eq!(later.chromosome, first.chromosome);
    }
}

#[test]
fn survivors_with_equal_scores_are_two_of_the_four() {
    let gp = GP::new(vec![]);
    let (first, second) = gp.survivor_pair(
        member(1, 2.0),
        member(2, 2.0),
        member(3, 2.0),
        member(4, 2.0),
    );
    assert_eq!(first.fitness, 2.0f64.to_bits());
    assert_eq!(second.fitness, 2.0f64.to_bits());
    let first_tag = tag_of(&first);
    let second_tag = tag_of(&second);
    assert!((1..=4).contains(&first_tag));
    assert!((1..=4).contains(&second_tag));
    assert_ne!(first_tag, second_tag);
}

#[test]
fn insert_into_population_appends() {
    let gp = GP::new(vec![]);
    let mut bucket: Vec<Member> = Vec::new();
    assert!(gp.insert_into_population(member(1, 1.0), &mut bucket));
    assert!(gp.insert_into_population(member(2, 2.0), &mut bucket));
    assert_eq!(bucket.len(), 2);
    assert_eq!(tag_of(&bucket[0]), 1);
    assert_eq!(tag_of(&bucket[1]), 2);
}
