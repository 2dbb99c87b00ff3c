//! The evolution controller.
//!
//! `GP` owns the configuration, the sample set and the population, and
//! drives the run one generation at a time.  Arithmetic on sample values is
//! the caller's business (see the crate doc): the engine hands out trees to
//! evaluate and takes back raw fitness bit patterns, which it settles
//! ([`crate::fitness`]), records and ranks itself.

use vstd::prelude::*;
use vstd::string::StringExecFns;
use crate::fitness::FITNESS_TERMINATION_BITS;
use crate::fitness::settled_fitness;
use crate::fitness::settle_fitness;
use crate::text::tree_json;
use crate::text::tree_text;
use crate::population::Member;
use crate::population::in_order;
use crate::population::sort_members;
use crate::population::sorted_by;
use crate::rng::chance;
use crate::rng::random_below;
use crate::tree::Action;
use crate::tree::Node;

verus! {

/// Per-run settings, created once at construction and never mutated by the
/// engine.  `mutate_prob_per_mille` and `max_fitness_evals` are carried for
/// the caller's sake but never drive a decision.
pub struct Config {
    pub pop_size: u16,
    pub max_generations: u16,
    pub mutate_prob_per_mille: u16,
    pub selection: String,
    pub fitness_order: String,
    pub chromosome_function: Vec<String>,
    pub chromosome_terminal: Vec<String>,
    pub chromosome_combined: Vec<String>,
    pub max_fitness_evals: u16,
    pub tree_limit_initial: u16,
    pub tree_limit_running: u16,
}

/// One sample of the target function, both coordinates as binary64 bit
/// patterns.
pub struct Sample {
    pub x: u64,
    pub y: u64,
}

/// What one generation reports: whether the run is over, the best member's
/// fitness key, its infix rendering, the generation number, and its JSON
/// rendering.
pub struct Report {
    pub done: bool,
    pub fitness: u64,
    pub best: String,
    pub gen: u16,
    pub chromosome: String,
}

impl Config {
    /// Whether fitness sorts in falling order, so that the numerically
    /// smallest error — the best member — comes last.
    pub open spec fn desc_order(self) -> bool {
        self.fitness_order@ == "desc"@
    }

    /// Decides [`Config::desc_order`].
    pub fn is_desc(&self) -> (r: bool)
        ensures
            r == self.desc_order(),
    {
        self.fitness_order == String::from_str("desc")
    }

    /// The settings every engine operation counts on: at least one member,
    /// at least one generation, alphabets with something to draw, a terminal
    /// alphabet of leaf symbols alone, a function alphabet of operator
    /// symbols alone, and tree limits that keep node counts within machine
    /// integers.
    pub open spec fn is_wf(self) -> bool {
        &&& self.pop_size >= 1
        &&& self.max_generations >= 1
        &&& self.chromosome_function.len() >= 1
        &&& self.chromosome_terminal.len() >= 1
        &&& self.chromosome_combined.len() >= 1
        &&& forall|i: int|
            0 <= i < self.chromosome_terminal@.len() ==> ((
            #[trigger] self.chromosome_terminal@[i])@ == "x"@ || self.chromosome_terminal@[i]@
                == "R"@)
        &&& forall|i: int|
            0 <= i < self.chromosome_function@.len() ==> ((
            #[trigger] self.chromosome_function@[i])@ != "x"@ && self.chromosome_function@[i]@
                != "R"@)
        &&& self.tree_limit_initial >= 1
        &&& self.tree_limit_initial <= self.tree_limit_running
        &&& self.tree_limit_running >= 2
        &&& self.tree_limit_running <= 30
    }

    /// Whether `name` stands in the function or the combined alphabet — the
    /// two an operator symbol can be drawn from.
    pub open spec fn has_op(self, name: Seq<char>) -> bool {
        ||| exists|i: int|
            0 <= i < self.chromosome_function@.len() && (#[trigger] self.chromosome_function@[i])@
                == name
        ||| exists|i: int|
            0 <= i < self.chromosome_combined@.len() && (#[trigger] self.chromosome_combined@[i])@
                == name
    }

    /// The default settings an engine starts with.
    pub open spec fn is_default(self) -> bool {
        &&& self.pop_size == 4000
        &&& self.max_generations == 51
        &&& self.mutate_prob_per_mille == 20
        &&& self.selection@ == "tournament"@
        &&& self.fitness_order@ == "desc"@
        &&& self.chromosome_function@.len() == 7
        &&& self.chromosome_function@[0]@ == "+"@
        &&& self.chromosome_function@[1]@ == "-"@
        &&& self.chromosome_function@[2]@ == "*"@
        &&& self.chromosome_function@[3]@ == "/"@
        &&& self.chromosome_function@[4]@ == "sin"@
        &&& self.chromosome_function@[5]@ == "cos"@
        &&& self.chromosome_function@[6]@ == "exp"@
        &&& self.chromosome_terminal@.len() == 2
        &&& self.chromosome_terminal@[0]@ == "x"@
        &&& self.chromosome_terminal@[1]@ == "R"@
        &&& self.chromosome_combined@.len() == 9
        &&& self.chromosome_combined@[0]@ == "+"@
        &&& self.chromosome_combined@[1]@ == "-"@
        &&& self.chromosome_combined@[2]@ == "*"@
        &&& self.chromosome_combined@[3]@ == "/"@
        &&& self.chromosome_combined@[4]@ == "sin"@
        &&& self.chromosome_combined@[5]@ == "cos"@
        &&& self.chromosome_combined@[6]@ == "exp"@
        &&& self.chromosome_combined@[7]@ == "x"@
        &&& self.chromosome_combined@[8]@ == "R"@
        &&& self.max_fitness_evals == 20000
        &&& self.tree_limit_initial == 6
        &&& self.tree_limit_running == 17
    }
}

/// Every operator node of the tree carries a symbol drawn from the
/// configured alphabets — one of the function or combined entries, and
/// never a leaf symbol.
pub open spec fn tree_ops_from(t: Node, config: Config) -> bool
    decreases t,
{
    &&& match t.action {
        Action::Function(name) => config.has_op(name@) && name@ != "x"@ && name@ != "R"@,
        _ => true,
    }
    &&& match t.arg1 {
        Some(child) => tree_ops_from(*child, config),
        None => true,
    }
    &&& match t.arg2 {
        Some(child) => tree_ops_from(*child, config),
        None => true,
    }
}

/// The evolution controller: sample set, settings, evaluation counter,
/// generation counter, current population, and whether the run is over.
pub struct GP {
    pub fitness: Vec<Sample>,
    pub config: Config,
    pub fitness_evaluations: usize,
    pub gen: u16,
    pub population: Vec<Member>,
    pub done: bool,
}

impl GP {
    /// Every population member carries a well-formed tree within the
    /// running height limit.
    pub open spec fn members_ok(self) -> bool {
        forall|i: int|
            0 <= i < self.population@.len() ==> {
                &&& (#[trigger] self.population@[i]).chromosome.is_wf()
                &&& self.population@[i].chromosome.depth() <= self.config.tree_limit_running
            }
    }

    /// The engine's invariant: sound settings, sound members, and a
    /// generation counter that stops at the configured bound.
    pub open spec fn is_wf(self) -> bool {
        &&& self.config.is_wf()
        &&& self.members_ok()
        &&& self.gen <= self.config.max_generations
        &&& !self.done ==> self.gen < self.config.max_generations
    }

    /// Builds an engine over a flat list of alternating x and y sample bit
    /// patterns, with the default settings, an empty population, and the
    /// counters at zero.  A trailing unpaired value is dropped.
    pub fn new(fitness_array: Vec<u64>) -> (r: GP)
        ensures
            r.config.is_default(),
            r.config.is_wf(),
            r.is_wf(),
            r.fitness@.len() == fitness_array@.len() / 2,
            forall|j: int|
                0 <= j < r.fitness@.len() ==> (#[trigger] r.fitness@[j]).x == fitness_array@[2 * j]
                    && r.fitness@[j].y == fitness_array@[2 * j + 1],
            r.fitness_evaluations == 0,
            r.gen == 0,
            r.population@.len() == 0,
            !r.done,
    {
        let mut fitness: Vec<Sample> = Vec::new();
        let mut i: usize = 0;
        while i + 1 < fitness_array.len()
            invariant
                i % 2 == 0,
                i <= fitness_array@.len(),
                fitness@.len() == i / 2,
                forall|j: int|
                    0 <= j < fitness@.len() ==> (#[trigger] fitness@[j]).x == fitness_array@[2 * j]
                        && fitness@[j].y == fitness_array@[2 * j + 1],
            decreases fitness_array@.len() - i,

        {
            let sample = Sample { x: fitness_array[i], y: fitness_array[i + 1] };
            fitness.push(sample);
            i += 2;
        }
        let config = Config {
            pop_size: 4000,
            max_generations: 51,
            mutate_prob_per_mille: 20,
            selection: String::from_str("tournament"),
            fitness_order: String::from_str("desc"),
            chromosome_function: vec![
                String::from_str("+"),
                String::from_str("-"),
                String::from_str("*"),
                String::from_str("/"),
                String::from_str("sin"),
                String::from_str("cos"),
                String::from_str("exp"),
            ],
            chromosome_terminal: vec![String::from_str("x"), String::from_str("R")],
            chromosome_combined: vec![
                String::from_str("+"),
                String::from_str("-"),
                String::from_str("*"),
                String::from_str("/"),
                String::from_str("sin"),
                String::from_str("cos"),
                String::from_str("exp"),
                String::from_str("x"),
                String::from_str("R"),
            ],
            max_fitness_evals: 20000,
            tree_limit_initial: 6,
            tree_limit_running: 17,
        };
        proof {
            // the default function alphabet holds no leaf symbol
            reveal_strlit("+");
            reveal_strlit("-");
            reveal_strlit("*");
            reveal_strlit("/");
            reveal_strlit("sin");
            reveal_strlit("cos");
            reveal_strlit("exp");
            reveal_strlit("x");
            reveal_strlit("R");
            assert("x"@.len() == 1 && "x"@[0] == 'x');
            assert("R"@.len() == 1 && "R"@[0] == 'R');
            assert("+"@.len() == 1 && "+"@[0] == '+');
            assert("-"@.len() == 1 && "-"@[0] == '-');
            assert("*"@.len() == 1 && "*"@[0] == '*');
            assert("/"@.len() == 1 && "/"@[0] == '/');
            assert("sin"@.len() == 3);
            assert("cos"@.len() == 3);
            assert("exp"@.len() == 3);
            assert forall|i: int| 0 <= i < config.chromosome_function@.len() implies ((
            #[trigger] config.chromosome_function@[i])@ != "x"@ && config.chromosome_function@[i]@
                != "R"@) by {
                if i == 0 {
                    assert(config.chromosome_function@[0]@ == "+"@);
                } else if i == 1 {
                    assert(config.chromosome_function@[1]@ == "-"@);
                } else if i == 2 {
                    assert(config.chromosome_function@[2]@ == "*"@);
                } else if i == 3 {
                    assert(config.chromosome_function@[3]@ == "/"@);
                } else if i == 4 {
                    assert(config.chromosome_function@[4]@ == "sin"@);
                } else if i == 5 {
                    assert(config.chromosome_function@[5]@ == "cos"@);
                } else {
                    assert(config.chromosome_function@[6]@ == "exp"@);
                }
            }
        }
        GP {
            fitness,
            config,
            fitness_evaluations: 0,
            gen: 0,
            population: Vec::new(),
            done: false,
        }
    }

    /// Settles a raw fitness bit pattern under the configured order and
    /// counts the evaluation (the counter stops at its greatest value
    /// rather than wrap).
    pub fn record_fitness(&mut self, raw_bits: u64) -> (key: u64)
        ensures
            key == settled_fitness(raw_bits, old(self).config.desc_order()),
            final(self).fitness == old(self).fitness,
            final(self).config == old(self).config,
            final(self).gen == old(self).gen,
            final(self).population == old(self).population,
            final(self).done == old(self).done,
            final(self).fitness_evaluations == if old(self).fitness_evaluations < usize::MAX {
                old(self).fitness_evaluations + 1
            } else {
                old(self).fitness_evaluations as int
            },
    {
        if self.fitness_evaluations < usize::MAX {
            self.fitness_evaluations = self.fitness_evaluations + 1;
        }
        settle_fitness(raw_bits, self.config.is_desc())
    }

    /// Builds a random tree top-down with a falling height budget.  With
    /// `grow` set, only operators are drawn, forcing a branch; with one
    /// budget step left, only leaves are drawn; otherwise the whole alphabet
    /// is open.  A drawn `R` becomes a random number between one and ten, a
    /// drawn `x` the variable, anything else an operator with two fresh
    /// subtrees on a budget one smaller, never again forced to branch.
    pub fn generate_chromosome_recursive(&self, limit: u16, grow: bool) -> (r: Node)
        requires
            self.config.is_wf(),
            grow ==> limit >= 1,
        ensures
            r.is_wf(),
            r.terminals_bounded(),
            tree_ops_from(r, self.config),
            grow ==> r.action is Function,
            !grow ==> r.depth() <= vstd::math::max(limit as int, 1),
            grow ==> r.depth() <= vstd::math::max(limit as int, 2),
        decreases limit,
    {
        let available_chromosomes: &Vec<String> = if grow {
            &self.config.chromosome_function
        } else if limit <= 1 {
            &self.config.chromosome_terminal
        } else {
            &self.config.chromosome_combined
        };
        let action_index = random_below(available_chromosomes.len());
        let action: &String = &available_chromosomes[action_index];
        if *action == String::from_str("R") {
            proof {
                // a forced branch cannot draw a leaf symbol: the function
                // alphabet holds operator symbols alone
                if grow {
                    assert(self.config.chromosome_function@[action_index as int]@ != "R"@);
                }
            }
            let random_terminal = random_below(10) + 1;
            Node { action: Action::Terminal(random_terminal as u64), arg1: None, arg2: None }
        } else if *action == String::from_str("x") {
            proof {
                if grow {
                    assert(self.config.chromosome_function@[action_index as int]@ != "x"@);
                }
            }
            Node { action: Action::X, arg1: None, arg2: None }
        } else {
            proof {
                // only an operator can be drawn here: with one budget step
                // left and no forced branch, the alphabet held leaf symbols
                // alone, and those were handled above
                if !grow && limit <= 1 {
                    assert(self.config.chromosome_terminal@[action_index as int]@ == "x"@
                        || self.config.chromosome_terminal@[action_index as int]@ == "R"@);
                }
                // the drawn symbol stands in the function or the combined
                // alphabet
                if grow {
                    assert(self.config.chromosome_function@[action_index as int]@ == action@);
                } else {
                    assert(self.config.chromosome_combined@[action_index as int]@ == action@);
                }
                assert(self.config.has_op(action@));
            }
            Node {
                action: Action::Function(action.clone()),
                arg1: Some(Box::new(self.generate_chromosome_recursive(limit - 1, false))),
                arg2: Some(Box::new(self.generate_chromosome_recursive(limit - 1, false))),
            }
        }
    }

    /// Builds a random tree on the configured starting height budget.
    pub fn generate_chromosome(&self, grow: bool) -> (r: Node)
        requires
            self.config.is_wf(),
        ensures
            r.is_wf(),
            r.terminals_bounded(),
            tree_ops_from(r, self.config),
            grow ==> r.action is Function,
            r.depth() <= vstd::math::max(self.config.tree_limit_initial as int, 2),
            r.depth() <= self.config.tree_limit_running,
    {
        let r = self.generate_chromosome_recursive(self.config.tree_limit_initial, grow);
        r
    }

    /// Builds the next member's tree for the starting population: the first
    /// half of the slots get a full tree, the rest a grown one — rooted at
    /// an operator — the classic ramped mix of shapes.
    pub fn next_initial(&self) -> (r: Node)
        requires
            self.is_wf(),
            self.population@.len() < self.config.pop_size,
        ensures
            r.is_wf(),
            r.terminals_bounded(),
            tree_ops_from(r, self.config),
            self.population@.len() > self.config.pop_size / 2 ==> r.action is Function,
            r.depth() <= vstd::math::max(self.config.tree_limit_initial as int, 2),
            r.depth() <= self.config.tree_limit_running,
    {
        let index = self.population.len();
        let grow = index > (self.config.pop_size / 2) as usize;
        self.generate_chromosome(grow)
    }

    /// Appends a scored member to the starting population.
    pub fn accept_initial(&mut self, chromosome: Node, fitness_key: u64)
        requires
            old(self).is_wf(),
            chromosome.is_wf(),
            chromosome.depth() <= old(self).config.tree_limit_running,
            old(self).population@.len() < old(self).config.pop_size,
        ensures
            final(self).is_wf(),
            final(self).population@ == old(self).population@.push(
                Member { chromosome, fitness: fitness_key },
            ),
            final(self).fitness == old(self).fitness,
            final(self).config == old(self).config,
            final(self).gen == old(self).gen,
            final(self).done == old(self).done,
            final(self).fitness_evaluations == old(self).fitness_evaluations,
    {
        let member = Member { chromosome, fitness: fitness_key };
        self.population.push(member);
    }

    /// Appends a member to a population under construction and says so.
    pub fn insert_into_population(
        &self,
        member: Member,
        population: &mut Vec<Member>,
    ) -> (r: bool)
        ensures
            final(population)@ == old(population)@.push(member),
            r,
    {
        population.push(member);
        true
    }

    /// Picks one parent: six members drawn at random, with replacement; half
    /// the time a uniformly random one of the six is returned, otherwise the
    /// best of the six under the configured order.  Either way the result
    /// is a copy of some current member.
    pub fn select_from_population(&self) -> (r: Member)
        requires
            self.population@.len() >= 1,
        ensures
            self.population@.contains(r),
    {
        broadcast use vstd::seq_lib::group_to_multiset_ensures;

        let max_population_index = self.population.len();
        let mut choices: Vec<Member> = Vec::new();
        let mut draw: usize = 0;
        while draw < 6
            invariant
                self.population@.len() >= 1,
                max_population_index == self.population@.len(),
                choices@.len() == draw,
                draw <= 6,
                forall|i: int|
                    0 <= i < choices@.len() ==> self.population@.contains(#[trigger] choices@[i]),
            decreases 6 - draw,
        {
            let index = random_below(max_population_index);
            let pick = self.population[index].deep_clone();
            choices.push(pick);
            draw += 1;
        }
        if chance(2) {
            let index = random_below(choices.len());
            let chosen = choices.remove(index);
            return chosen;
        }
        let ghost pool: Seq<Member> = choices@;
        sort_members(&mut choices, self.config.is_desc());
        let ghost sorted: Seq<Member> = choices@;
        let best = choices.pop().unwrap();
        proof {
            assert(sorted.contains(best));
            vstd::seq_lib::to_multiset_contains(sorted, best);
            vstd::seq_lib::to_multiset_contains(pool, best);
            assert(pool.contains(best));
        }
        best
    }

    /// What one crossover draw yields: the node of `parent2` that the first
    /// count picks, written over the node of a copy of `parent1` that the
    /// second count picks — unless the outcome grows taller than `limit`,
    /// in which case `parent1` stands unchanged.
    pub open spec fn crossover_outcome(
        parent1: Node,
        parent2: Node,
        pick: nat,
        target: nat,
        limit: u16,
    ) -> Node {
        let picked = parent2.pick_outcome(pick);
        let swapped = parent1.update_spec(picked, target).0;
        if swapped.depth() > limit {
            parent1
        } else {
            swapped
        }
    }

    /// Crosses two parents: a random subtree of the second replaces a
    /// random node of a copy of the first, and an offspring taller than the
    /// running limit is discarded for an unchanged copy of the first
    /// parent.  Whatever is drawn, the offspring is well formed and within
    /// the running height limit.
    pub fn crossover_function(&self, parent1: &Node, parent2: &Node) -> (r: Node)
        requires
            self.config.is_wf(),
            parent1.is_wf(),
            parent2.is_wf(),
            parent1.depth() <= self.config.tree_limit_running,
            parent2.depth() <= self.config.tree_limit_running,
        ensures
            r.is_wf(),
            r.depth() <= self.config.tree_limit_running,
            exists|pick: nat, target: nat|
                pick < parent2.count() && target < parent1.count() && r
                    == Self::crossover_outcome(
                    *parent1,
                    *parent2,
                    pick,
                    target,
                    self.config.tree_limit_running,
                ),
    {
        proof {
            parent1.lemma_count_bound();
            parent2.lemma_count_bound();
            vstd::arithmetic::power2::lemma2_to64();
            if parent1.depth() < 30 {
                vstd::arithmetic::power2::lemma_pow2_strictly_increases(parent1.depth(), 30);
            }
            if parent2.depth() < 30 {
                vstd::arithmetic::power2::lemma_pow2_strictly_increases(parent2.depth(), 30);
            }
        }
        let picked_node = parent2.pick_node();
        let ghost pick: nat = choose|k: nat|
            k < parent2.count() && picked_node == parent2.pick_outcome(k);
        let mut new_parent = parent1.deep_clone();
        new_parent.swap_node(&picked_node);
        let ghost target: nat = choose|k: nat|
            k < parent1.count() && new_parent == parent1.update_spec(picked_node, k).0;
        let offspring_depth = new_parent.count_node_depth();
        if offspring_depth > self.config.tree_limit_running {
            let fallback = parent1.deep_clone();
            proof {
                assert(fallback == Self::crossover_outcome(
                    *parent1,
                    *parent2,
                    pick,
                    target,
                    self.config.tree_limit_running,
                ));
            }
            fallback
        } else {
            proof {
                assert(new_parent == Self::crossover_outcome(
                    *parent1,
                    *parent2,
                    pick,
                    target,
                    self.config.tree_limit_running,
                ));
            }
            new_parent
        }
    }

    /// Ranks one crossover event's four candidates — the two parents and
    /// the two offspring — by the configured order and keeps the two that
    /// end at the tail of the ranking: under "desc" order, the two with the
    /// numerically smallest error.  The first of the pair is the member
    /// popped first, the very tail.
    pub fn survivor_pair(
        &self,
        parent1: Member,
        parent2: Member,
        child1: Member,
        child2: Member,
    ) -> (r: (Member, Member))
        ensures
            exists|s: Seq<Member>|
                #![auto]
                sorted_by(s, self.config.desc_order()) && s.len() == 4 && s.to_multiset()
                    == seq![parent1, parent2, child1, child2].to_multiset() && r.0 == s[3] && r.1
                    == s[2],
    {
        let ghost four: Seq<Member> = seq![parent1, parent2, child1, child2];
        let mut candidates: Vec<Member> = Vec::new();
        candidates.push(parent1);
        candidates.push(parent2);
        candidates.push(child1);
        candidates.push(child2);
        proof {
            assert(candidates@ =~= four);
        }
        sort_members(&mut candidates, self.config.is_desc());
        let ghost sorted: Seq<Member> = candidates@;
        let first = candidates.pop().unwrap();
        let second = candidates.pop().unwrap();
        proof {
            assert(first == sorted[3]);
            assert(second == sorted[2]);
        }
        (first, second)
    }
}

/// Whether a report tells exactly what the engine's state holds: the done
/// flag, the generation count, and the last — best-ranked — member's
/// fitness key and its two renderings.
pub open spec fn report_describes(r: Report, gp: GP) -> bool {
    &&& r.done == gp.done
    &&& r.gen == gp.gen
    &&& r.fitness == gp.population@.last().fitness
    &&& r.best@ == tree_text(gp.population@.last().chromosome)
    &&& r.chromosome@ == tree_json(gp.population@.last().chromosome)
}

/// Once a run is over, its report never changes: any two reports that
/// describe the same engine state agree on the done flag, the fitness key,
/// the generation count and both renderings of the best member — and
/// [`GP::begin_generation`] leaves a finished engine's state exactly as it
/// was.
pub proof fn lemma_report_settled(first: Report, second: Report, gp: GP)
    requires
        report_describes(first, gp),
        report_describes(second, gp),
    ensures
        first.done == second.done,
        first.fitness == second.fitness,
        first.gen == second.gen,
        first.best@ == second.best@,
        first.chromosome@ == second.chromosome@,
{
}

impl GP {
    /// Reports the last member of the population — after a sort, the best —
    /// together with the engine's progress.
    pub fn report_best(&self) -> (r: Report)
        requires
            self.population@.len() >= 1,
        ensures
            report_describes(r, *self),
    {
        let last_index = self.population.len() - 1;
        let member: &Member = &self.population[last_index];
        Report {
            done: self.done,
            fitness: member.fitness,
            best: member.chromosome.chromosome_to_string(),
            gen: self.gen,
            chromosome: member.chromosome.chromosome_to_json(),
        }
    }

    /// Opens a generation: steps the counter and decides termination.  The
    /// run ends when the counter reaches the configured bound, or when the
    /// current last member scores below the termination threshold, or when
    /// it had already ended — in that case nothing changes at all and the
    /// final report is told again.  A report is returned exactly when the
    /// run is over; otherwise the caller owes the engine a new population.
    pub fn begin_generation(&mut self) -> (r: Option<Report>)
        requires
            old(self).is_wf(),
            old(self).population@.len() >= 1,
        ensures
            final(self).is_wf(),
            final(self).population == old(self).population,
            final(self).fitness == old(self).fitness,
            final(self).config == old(self).config,
            final(self).fitness_evaluations == old(self).fitness_evaluations,
            old(self).done ==> *final(self) == *old(self),
            !old(self).done ==> final(self).gen == old(self).gen + 1,
            final(self).done == (old(self).done || old(self).gen + 1
                >= old(self).config.max_generations || old(self).population@.last().fitness
                < FITNESS_TERMINATION_BITS),
            r is Some <==> final(self).done,
            r matches Some(report) ==> report_describes(report, *final(self)),
    {
        if self.done {
            let report = self.report_best();
            return Some(report);
        }
        self.gen = self.gen + 1;
        let last_index = self.population.len() - 1;
        let finished = self.config.max_generations <= self.gen
            || self.population[last_index].fitness < FITNESS_TERMINATION_BITS;
        if finished {
            self.done = true;
            let report = self.report_best();
            Some(report)
        } else {
            None
        }
    }

    /// Closes a generation: installs the newly built population, topping it
    /// up from the front of the old one should it run short, re-sorts by
    /// the configured order, and reports the best member — the last after
    /// the sort, with a key that no other member's key beats ("last is
    /// best", whichever order is configured).
    pub fn complete_generation(&mut self, new_population: Vec<Member>) -> (r: Report)
        requires
            old(self).is_wf(),
            old(self).population@.len() >= 1,
            new_population@.len() <= old(self).population@.len(),
            forall|i: int|
                0 <= i < new_population@.len() ==> {
                    &&& (#[trigger] new_population@[i]).chromosome.is_wf()
                    &&& new_population@[i].chromosome.depth() <= old(self).config.tree_limit_running
                },
        ensures
            final(self).is_wf(),
            final(self).fitness == old(self).fitness,
            final(self).config == old(self).config,
            final(self).gen == old(self).gen,
            final(self).done == old(self).done,
            final(self).fitness_evaluations == old(self).fitness_evaluations,
            final(self).population@.len() == old(self).population@.len(),
            sorted_by(final(self).population@, old(self).config.desc_order()),
            final(self).population@.to_multiset() == (new_population@
                + old(self).population@.take(
                old(self).population@.len() - new_population@.len(),
            )).to_multiset(),
            forall|i: int|
                0 <= i < final(self).population@.len() ==> in_order(
                    old(self).config.desc_order(),
                    (#[trigger] final(self).population@[i]).fitness,
                    final(self).population@.last().fitness,
                ),
            report_describes(r, *final(self)),
    {
        let mut incoming = new_population;
        let target = self.population.len();
        let ghost handed: Seq<Member> = incoming@;
        while incoming.len() < target
            invariant
                target == old(self).population@.len(),
                handed.len() <= incoming@.len() <= target,
                incoming@ == handed + old(self).population@.take(
                    incoming@.len() - handed.len(),
                ),
                self.population@ == old(self).population@.skip(incoming@.len() - handed.len()),
                self.fitness == old(self).fitness,
                self.config == old(self).config,
                self.gen == old(self).gen,
                self.done == old(self).done,
                self.fitness_evaluations == old(self).fitness_evaluations,
            decreases target - incoming@.len(),
        {
            let ghost moved: int = incoming@.len() - handed.len();
            let next = self.population.remove(0);
            incoming.push(next);
            proof {
                let full: Seq<Member> = old(self).population@;
                assert(next == full.skip(moved)[0]);
                assert(next == full[moved]);
                assert(full.skip(moved).remove(0) =~= full.skip(moved + 1));
                assert(full.take(moved).push(next) =~= full.take(moved + 1));
            }
        }
        self.population = incoming;
        sort_members(&mut self.population, self.config.is_desc());
        proof {
            let full: Seq<Member> = old(self).population@;
            let combined: Seq<Member> = handed + full.take(full.len() - handed.len());
            assert forall|i: int| 0 <= i < self.population@.len() implies {
                &&& (#[trigger] self.population@[i]).chromosome.is_wf()
                &&& self.population@[i].chromosome.depth() <= self.config.tree_limit_running
            } by {
                let m = self.population@[i];
                assert(self.population@.contains(m));
                vstd::seq_lib::to_multiset_contains(self.population@, m);
                vstd::seq_lib::to_multiset_contains(combined, m);
                assert(combined.contains(m));
                let k = choose|k: int| 0 <= k < combined.len() && combined[k] == m;
                if k < handed.len() {
                    assert(m == handed[k]);
                } else {
                    assert(m == full[k - handed.len()]);
                }
            }
        }
        let report = self.report_best();
        report
    }

    /// Decides [`GP::is_wf`].
    pub fn check_wf(&self) -> (r: bool)
        ensures
            r == self.is_wf(),
    {
        let c = &self.config;
        let settings_ok = c.pop_size >= 1 && c.max_generations >= 1 && c.chromosome_function.len()
            >= 1 && c.chromosome_terminal.len() >= 1 && c.chromosome_combined.len() >= 1
            && c.tree_limit_initial >= 1 && c.tree_limit_initial <= c.tree_limit_running
            && c.tree_limit_running >= 2 && c.tree_limit_running <= 30;
        if !settings_ok {
            return false;
        }
        let mut i: usize = 0;
        while i < self.config.chromosome_terminal.len()
            invariant
                i <= self.config.chromosome_terminal@.len(),
                forall|j: int|
                    0 <= j < i ==> ((#[trigger] self.config.chromosome_terminal@[j])@ == "x"@
                        || self.config.chromosome_terminal@[j]@ == "R"@),
            decreases self.config.chromosome_terminal@.len() - i,
        {
            let symbol: &String = &self.config.chromosome_terminal[i];
            if !(*symbol == String::from_str("x") || *symbol == String::from_str("R")) {
                proof {
                    assert(self.config.chromosome_terminal@[i as int]@ != "x"@);
                    assert(self.config.chromosome_terminal@[i as int]@ != "R"@);
                }
                return false;
            }
            i += 1;
        }
        let mut f: usize = 0;
        while f < self.config.chromosome_function.len()
            invariant
                f <= self.config.chromosome_function@.len(),
                forall|j: int|
                    0 <= j < f ==> ((#[trigger] self.config.chromosome_function@[j])@ != "x"@
                        && self.config.chromosome_function@[j]@ != "R"@),
            decreases self.config.chromosome_function@.len() - f,
        {
            let symbol: &String = &self.config.chromosome_function[f];
            if *symbol == String::from_str("x") || *symbol == String::from_str("R") {
                proof {
                    assert(self.config.chromosome_function@[f as int]@ == "x"@
                        || self.config.chromosome_function@[f as int]@ == "R"@);
                }
                return false;
            }
            f += 1;
        }
        let counters_ok = self.gen <= self.config.max_generations && (self.done || self.gen
            < self.config.max_generations);
        if !counters_ok {
            return false;
        }
        let mut k: usize = 0;
        while k < self.population.len()
            invariant
                k <= self.population@.len(),
                forall|j: int|
                    0 <= j < k ==> {
                        &&& (#[trigger] self.population@[j]).chromosome.is_wf()
                        &&& self.population@[j].chromosome.depth() <= self.config.tree_limit_running
                    },
            decreases self.population@.len() - k,
        {
            let member: &Member = &self.population[k];
            if !(member.chromosome.check_wf() && member.chromosome.depth_at_most(
                self.config.tree_limit_running,
            )) {
                return false;
            }
            k += 1;
        }
        true
    }
}

} // verus!
