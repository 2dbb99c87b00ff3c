//! Whole-run scenarios.  The tests play the host's part: they evaluate
//! trees numerically, hand the engine raw score bit patterns, and drive the
//! generational loop exactly as an embedding application would.

use gp_engine::rng::chance;
use gp_engine::Action;
use gp_engine::Member;
use gp_engine::Node;
use gp_engine::Report;
use gp_engine::GP;

fn eval_tree(node: &Node, x: f64) -> f64 {
    match &node.action {
        Action::Function(name) => {
            if let (Some(arg1), Some(arg2)) = (node.arg1.as_deref(), node.arg2.as_deref()) {
                match name.as_str() {
                    "+" => eval_tree(arg1, x) + eval_tree(arg2, x),
                    "-" => eval_tree(arg1, x) - eval_tree(arg2, x),
                    "*" => eval_tree(arg1, x) * eval_tree(arg2, x),
                    "/" => eval_tree(arg1, x) / eval_tree(arg2, x),
                    "sin" => eval_tree(arg1, x).sin(),
                    "cos" => eval_tree(arg1, x).cos(),
                    "exp" => eval_tree(arg1, x).powf(eval_tree(arg2, x)),
                    _ => 9999999.0,
                }
            } else {
                9999999.0
            }
        }
        Action::Terminal(value) => *value as f64,
        Action::X => x,
    }
}

fn measure_fitness(gp: &mut GP, tree: &Node) -> u64 {
    let samples: Vec<(f64, f64)> = gp
        .fitness
        .iter()
        .map(|s| (f64::from_bits(s.x), f64::from_bits(s.y)))
        .collect();
    let mut total = 0.0f64;
    for (x, y) in samples {
        total += (y - eval_tree(tree, x)).abs();
    }
    gp.record_fitness(total.to_bits())
}

fn init(gp: &mut GP) {
    while gp.population.len() < gp.config.pop_size as usize {
        let tree = gp.next_initial();
        let key = measure_fitness(gp, &tree);
        gp.accept_initial(tree, key);
    }
}

fn tick(gp: &mut GP) -> Report {
    if let Some(report) = gp.begin_generation() {
        return report;
    }
    let target = gp.population.len();
    let mut new_population: Vec<Member> = Vec::new();
    while new_population.len() < target {
        let parent1 = gp.select_from_population();
        if chance(10) {
            gp.insert_into_population(parent1, &mut new_population);
        } else {
            let parent2 = gp.select_from_population();
            let tree1 = gp.crossover_function(&parent1.chromosome, &parent2.chromosome);
            let key1 = measure_fitness(gp, &tree1);
            let child1 = Member { chromosome: tree1, fitness: key1 };
            let tree2 = gp.crossover_function(&parent1.chromosome, &parent2.chromosome);
            let key2 = measure_fitness(gp, &tree2);
            let child2 = Member { chromosome: tree2, fitness: key2 };
            let (first, second) = gp.survivor_pair(parent1, parent2, child1, child2);
            gp.insert_into_population(first, &mut new_population);
            if new_population.len() < target {
                gp.insert_into_population(second, &mut new_population);
            }
        }
    }
    gp.complete_generation(new_population)
}

#[test]
fn identity_target_converges_to_x() {
    // samples of y = x; a small population should reach a tree equal to x
    // on the samples well before the generation budget runs out
    let flat = vec![0.0f64, 0.0, 1.0, 1.0, 2.0, 2.0];
    let mut gp = GP::new(flat.into_iter().map(f64::to_bits).collect());
    gp.config.pop_size = 200;
    assert!(gp.check_wf());
    init(&mut gp);
    let mut report = tick(&mut gp);
    while !report.done {
        report = tick(&mut gp);
    }
    assert!(f64::from_bits(report.fitness) < 0.001);
    assert!(report.gen < gp.config.max_generations);
    // the winner really computes x on the samples
    let best = gp.population.last().unwrap();
    for x in [0.0f64, 1.0, 2.0] {
        assert!((eval_tree(&best.chromosome, x) - x).abs() < 0.001);
    }
}

#[test]
fn single_sample_is_matched_by_a_bare_terminal() {
    // one sample (0, 5); height-one initial trees are bare leaves, so a
    // five appears in the starting population and scores zero at once
    let mut gp = GP::new(vec![0.0f64.to_bits(), 5.0f64.to_bits()]);
    gp.config.pop_size = 400;
    gp.config.tree_limit_initial = 1;
    assert!(gp.check_wf());
    init(&mut gp);
    assert!(gp.population.iter().any(|m| m.fitness == 0.0f64.to_bits()));
    let mut report = tick(&mut gp);
    while !report.done {
        report = tick(&mut gp);
    }
    assert_eq!(report.fitness, 0.0f64.to_bits());
    assert!(report.gen <= 3);
}

#[test]
fn empty_dataset_scores_zero_and_ends_at_once() {
    // with no samples every tree's error sum is zero, which beats the
    // termination threshold on the first generation
    let mut gp = GP::new(vec![]);
    gp.config.pop_size = 30;
    init(&mut gp);
    let report = tick(&mut gp);
    assert!(report.done);
    assert_eq!(report.gen, 1);
    assert_eq!(report.fitness, 0.0f64.to_bits());
}

#[test]
fn default_population_size_initialises_and_evolves() {
    let mut gp = GP::new(vec![0.0f64.to_bits(), 1.0f64.to_bits()]);
    assert_eq!(gp.config.pop_size, 4000);
    init(&mut gp);
    assert_eq!(gp.population.len(), 4000);
    let report = tick(&mut gp);
    assert_eq!(gp.population.len(), 4000);
    assert_eq!(report.gen, 1);
}

#[test]
fn population_size_stays_fixed_across_generations() {
    let mut gp = GP::new(vec![0.0f64.to_bits(), 3.0f64.to_bits()]);
    gp.config.pop_size = 60;
    gp.config.max_generations = 6;
    init(&mut gp);
    assert_eq!(gp.population.len(), 60);
    loop {
        let report = tick(&mut gp);
        assert_eq!(gp.population.len(), 60);
        if report.done {
            break;
        }
    }
}
