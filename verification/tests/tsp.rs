//! Test for the Traveling Salesman Problem (TSP) using simulated annealing.
//!
//! This test verifies that the frostfire library can effectively solve
//! the TSP problem, ensuring convergence to within 1.2× of known
//! optimal solutions on symmetric distance matrices.

use frostfire::{seeded_rng, Phase, Scalar};
use rand::rngs::StdRng;
use rand::Rng;

// ---------------------------------------------------------------------------
// The floating-point side of a run: problem traits, cooling formulas and the
// loop that drives the engine.
// ---------------------------------------------------------------------------

fn scalar(x: f64) -> Scalar {
    match Scalar::from_bits(x.to_bits()) {
        Some(s) => s,
        None => panic!("expected a finite number, got {}", x),
    }
}

fn number(s: Scalar) -> f64 {
    f64::from_bits(s.to_bits())
}

trait State: Clone {
    fn neighbor(&self, rng: &mut impl Rng) -> Self;
}

trait Energy {
    type State: State;

    fn cost(&self, state: &Self::State) -> f64;
}

trait Schedule {
    fn initial_temp(&self) -> f64;

    fn next_temp(&self, current_temp: f64, iteration: usize) -> f64;

    fn record_outcome(&mut self, _accepted: bool) {}
}

#[allow(dead_code)]
#[derive(Clone, Debug)]
struct GeometricSchedule {
    params: frostfire::GeometricSchedule,
}

#[allow(dead_code)]
impl GeometricSchedule {
    fn new(initial_temperature: f64, alpha: f64) -> Self {
        let temperature = scalar(initial_temperature);
        let alpha = scalar(alpha);
        assert!(
            temperature.is_positive(),
            "Initial temperature must be positive"
        );
        assert!(
            frostfire::GeometricSchedule::valid_params(&temperature, &alpha),
            "Alpha must be between 0 and 1 (exclusive)"
        );
        Self {
            params: frostfire::GeometricSchedule::new(temperature, alpha),
        }
    }
}

impl Schedule for GeometricSchedule {
    fn initial_temp(&self) -> f64 {
        number(self.params.initial_temp())
    }

    fn next_temp(&self, current_temp: f64, _iteration: usize) -> f64 {
        current_temp * number(self.params.alpha())
    }
}

#[allow(dead_code)]
#[derive(Clone, Debug)]
struct LogarithmicSchedule {
    params: frostfire::LogarithmicSchedule,
}

#[allow(dead_code)]
impl LogarithmicSchedule {
    fn new(initial_temperature: f64) -> Self {
        let temperature = scalar(initial_temperature);
        assert!(
            temperature.is_positive(),
            "Initial temperature must be positive"
        );
        Self {
            params: frostfire::LogarithmicSchedule::new(temperature),
        }
    }
}

impl Schedule for LogarithmicSchedule {
    fn initial_temp(&self) -> f64 {
        number(self.params.initial_temp())
    }

    fn next_temp(&self, _current_temp: f64, iteration: usize) -> f64 {
        match self.params.undivided_temp(iteration) {
            Some(initial) => number(initial),
            None => number(self.params.initial_temp()) / (1.0 + iteration as f64).ln(),
        }
    }
}

#[allow(dead_code)]
#[derive(Clone, Debug)]
struct AdaptiveSchedule {
    inner: frostfire::AdaptiveSchedule,
}

#[allow(dead_code)]
impl AdaptiveSchedule {
    fn new(initial_temperature: f64) -> Self {
        let temperature = scalar(initial_temperature);
        assert!(
            temperature.is_positive(),
            "Initial temperature must be positive"
        );
        Self {
            inner: frostfire::AdaptiveSchedule::new(temperature),
        }
    }

    fn with_params(
        initial_temperature: f64,
        target_acceptance_ratio: f64,
        min_alpha: f64,
        max_alpha: f64,
    ) -> Self {
        let temperature = scalar(initial_temperature);
        let target = scalar(target_acceptance_ratio);
        let min_alpha = scalar(min_alpha);
        let max_alpha = scalar(max_alpha);
        assert!(
            frostfire::AdaptiveSchedule::valid_params(&temperature, &target, &min_alpha, &max_alpha),
            "Adaptive schedule parameters are out of range"
        );
        Self {
            inner: frostfire::AdaptiveSchedule::with_params(
                temperature,
                target,
                min_alpha,
                max_alpha,
            ),
        }
    }
}

impl Schedule for AdaptiveSchedule {
    fn initial_temp(&self) -> f64 {
        number(self.inner.initial_temp())
    }

    fn next_temp(&self, current_temp: f64, _iteration: usize) -> f64 {
        let (accepted, total) = self.inner.acceptance_ratio();
        let current_ratio = accepted as f64 / total as f64;
        let target = number(self.inner.target_acceptance_ratio());
        let min_alpha = number(self.inner.min_alpha());
        let max_alpha = number(self.inner.max_alpha());
        let ratio_diff = current_ratio - target;
        let interpolated = max_alpha - (max_alpha - min_alpha) * (ratio_diff / target);
        let alpha = self
            .inner
            .cooling_rate(scalar(ratio_diff), interpolated.to_bits());
        current_temp * number(alpha)
    }

    fn record_outcome(&mut self, accepted: bool) {
        self.inner.record_acceptance(accepted);
    }
}

#[allow(dead_code)]
fn accept(delta: f64, temperature: f64, rng: &mut impl Rng) -> bool {
    if delta < 0.0 {
        true
    } else {
        let draw: f64 = rng.gen();
        let threshold = (-delta / temperature).exp();
        scalar(draw).below_bits(threshold.to_bits())
    }
}

#[allow(dead_code)]
#[derive(Clone)]
struct AnnealingResult<S: State> {
    best_state: S,
    best_energy: f64,
    final_state: S,
    final_energy: f64,
    iterations: usize,
    accepted_moves: usize,
    rejected_moves: usize,
    initial_temp: f64,
    final_temp: f64,
}

struct Annealer<S, E, Sch>
where
    S: State,
    E: Energy<State = S>,
    Sch: Schedule,
{
    engine: frostfire::Annealer<S>,
    energy: E,
    schedule: Sch,
    rng: StdRng,
}

#[allow(dead_code)]
impl<S, E, Sch> Annealer<S, E, Sch>
where
    S: State,
    E: Energy<State = S>,
    Sch: Schedule,
{
    fn new(initial_state: S, energy: E, schedule: Sch, rng: StdRng, max_iters: usize) -> Self {
        let initial_energy = scalar(energy.cost(&initial_state));
        Self {
            engine: frostfire::Annealer::new(initial_state, initial_energy, max_iters),
            energy,
            schedule,
            rng,
        }
    }

    fn state(&self) -> &S {
        self.engine.state()
    }

    fn max_iters(&self) -> usize {
        self.engine.run_state().max_iters
    }

    fn run(&mut self) -> (S, f64) {
        let result = self.run_with_stats();
        (result.best_state, result.best_energy)
    }

    fn run_with_stats(&mut self) -> AnnealingResult<S> {
        let initial_temp = scalar(self.schedule.initial_temp());
        let current_energy = scalar(self.energy.cost(self.engine.state()));
        let mut phase = self.engine.begin(initial_temp, current_energy);
        loop {
            let step = match phase {
                Phase::Proposing => {
                    let proposal = self.engine.state().neighbor(&mut self.rng);
                    let energy = scalar(self.energy.cost(&proposal));
                    self.engine.propose(proposal, energy)
                }
                Phase::Drawing => {
                    let run = self.engine.run_state();
                    let delta = number(run.pending_energy) - number(run.current_energy);
                    let draw: f64 = self.rng.gen();
                    let threshold = (-delta / number(run.current_temp)).exp();
                    self.engine.settle(scalar(draw), threshold.to_bits())
                }
                Phase::Cooling => {
                    let run = self.engine.run_state();
                    self.schedule.record_outcome(run.last_accepted);
                    let next = self
                        .schedule
                        .next_temp(number(run.current_temp), run.iteration);
                    self.engine.cool(scalar(next))
                }
                Phase::Idle | Phase::Finished => break,
            };
            phase = match step {
                Ok(next) => next,
                Err(e) => panic!("engine expected {:?} in phase {:?}", e.expected, e.found),
            };
        }
        match self.engine.result() {
            Some(r) => AnnealingResult {
                best_state: r.best_state,
                best_energy: number(r.best_energy),
                final_state: r.final_state,
                final_energy: number(r.final_energy),
                iterations: r.iterations,
                accepted_moves: r.accepted_moves,
                rejected_moves: r.rejected_moves,
                initial_temp: number(r.initial_temp),
                final_temp: number(r.final_temp),
            },
            None => panic!("the run did not finish"),
        }
    }
}

// ---------------------------------------------------------------------------

// Seed for reproducibility
const SEED: u64 = 42;

/// Represents a TSP problem as a vector of cities with (x, y) coordinates.
#[derive(Clone)]
struct TspProblem {
    cities: Vec<(f64, f64)>,
    #[allow(dead_code)]
    optimal_tour: Option<Vec<usize>>,
    optimal_distance: Option<f64>,
}

impl TspProblem {
    /// Creates a new TSP problem with random city positions.
    fn random(num_cities: usize, rng: &mut impl Rng) -> Self {
        let cities = (0..num_cities)
            .map(|_| (rng.gen_range(0.0..100.0), rng.gen_range(0.0..100.0)))
            .collect();

        Self {
            cities,
            optimal_tour: None,
            optimal_distance: None,
        }
    }

    /// Creates a simple TSP problem with a known optimal solution.
    fn with_known_optimal() -> Self {
        // A small problem with a known optimal solution
        let cities = vec![
            (0.0, 0.0), // 0
            (0.0, 5.0), // 1
            (5.0, 5.0), // 2
            (5.0, 0.0), // 3
        ];

        // Optimal tour: 0-1-2-3-0
        let optimal_tour = vec![0, 1, 2, 3];

        // Optimal distance: 5 + 5 + 5 + 5 = 20
        let optimal_distance = 20.0;

        Self {
            cities,
            optimal_tour: Some(optimal_tour),
            optimal_distance: Some(optimal_distance),
        }
    }

    /// Calculates the distance between two cities.
    fn distance(&self, city1: usize, city2: usize) -> f64 {
        let (x1, y1) = self.cities[city1];
        let (x2, y2) = self.cities[city2];

        ((x2 - x1).powi(2) + (y2 - y1).powi(2)).sqrt()
    }

    /// Calculates the total distance of a tour.
    fn tour_distance(&self, tour: &[usize]) -> f64 {
        let mut total = 0.0;

        for i in 0..tour.len() {
            let from = tour[i];
            let to = tour[(i + 1) % tour.len()];
            total += self.distance(from, to);
        }

        total
    }
}

/// A state representing a tour in the TSP problem.
#[derive(Clone, Debug)]
struct TspState {
    tour: Vec<usize>,
}

impl TspState {
    /// Creates a new TSP state with a random tour.
    fn random(num_cities: usize, rng: &mut impl Rng) -> Self {
        let mut tour: Vec<usize> = (0..num_cities).collect();
        // Fisher-Yates shuffle for random permutation
        for i in (1..num_cities).rev() {
            let j = rng.gen_range(0..=i);
            tour.swap(i, j);
        }

        Self { tour }
    }
}

impl State for TspState {
    fn neighbor(&self, rng: &mut impl Rng) -> Self {
        // Create a neighbor by swapping two random cities
        let mut new_tour = self.tour.clone();
        let idx1 = rng.gen_range(0..new_tour.len());
        let idx2 = rng.gen_range(0..new_tour.len());

        if idx1 != idx2 {
            new_tour.swap(idx1, idx2);
        }

        Self { tour: new_tour }
    }
}

/// The energy function for the TSP problem.
struct TspEnergy {
    problem: TspProblem,
}

impl Energy for TspEnergy {
    type State = TspState;

    fn cost(&self, state: &Self::State) -> f64 {
        self.problem.tour_distance(&state.tour)
    }
}

#[test]
fn test_tsp_small_known_optimal() {
    // Create a TSP problem with a known optimal solution
    let problem = TspProblem::with_known_optimal();
    let energy = TspEnergy {
        problem: problem.clone(),
    };

    // Initial state - random tour
    let mut rng = seeded_rng(SEED);
    let initial_state = TspState::random(problem.cities.len(), &mut rng);

    // Set up the annealer
    let schedule = GeometricSchedule::new(100.0, 0.95);
    let mut annealer = Annealer::new(
        initial_state,
        energy,
        schedule,
        rng,
        10000, // max iterations
    );

    // Run the annealer
    let (best_state, best_energy) = annealer.run();

    // Check that we found the optimal solution or close to it
    let optimal_distance = problem.optimal_distance.unwrap();
    let ratio = best_energy / optimal_distance;

    println!("Best tour: {:?}", best_state.tour);
    println!("Best distance: {}", best_energy);
    println!("Optimal distance: {}", optimal_distance);
    println!("Ratio: {}", ratio);

    // The solution should be within 1.2× of the optimal
    assert!(ratio <= 1.2, "Solution is not within 1.2× of optimal");
}

#[test]
fn test_tsp_medium() {
    // Create a medium-sized TSP problem
    let mut rng = seeded_rng(SEED);
    let num_cities = 20;
    let problem = TspProblem::random(num_cities, &mut rng);
    let energy = TspEnergy {
        problem: problem.clone(),
    };

    // Initial state - random tour
    let initial_state = TspState::random(num_cities, &mut rng);
    let initial_energy = energy.cost(&initial_state);

    // Set up the annealer
    let schedule = GeometricSchedule::new(100.0, 0.95);
    let mut annealer = Annealer::new(
        initial_state,
        energy,
        schedule,
        seeded_rng(SEED), // New RNG with same seed
        20000,            // max iterations
    );

    // Run the annealer
    let result = annealer.run_with_stats();

    println!("Initial energy: {}", initial_energy);
    println!("Final energy: {}", result.final_energy);
    println!("Best energy: {}", result.best_energy);
    println!(
        "Improvement: {:.2}%",
        100.0 * (initial_energy - result.best_energy) / initial_energy
    );
    println!(
        "Acceptance ratio: {:.2}%",
        100.0 * result.accepted_moves as f64 / result.iterations as f64
    );

    // The solution should be significantly better than the initial random tour
    assert!(
        result.best_energy < 0.5 * initial_energy,
        "Solution did not improve significantly"
    );
}

#[test]
fn test_tsp_large() {
    // Create a large TSP problem
    let mut rng = seeded_rng(SEED);
    let num_cities = 50;
    let problem = TspProblem::random(num_cities, &mut rng);
    let energy = TspEnergy {
        problem: problem.clone(),
    };

    // Initial state - random tour
    let initial_state = TspState::random(num_cities, &mut rng);
    let initial_energy = energy.cost(&initial_state);

    // Set up the annealer
    let schedule = GeometricSchedule::new(1000.0, 0.98);
    let mut annealer = Annealer::new(
        initial_state,
        energy,
        schedule,
        seeded_rng(SEED), // New RNG with same seed
        50000,            // max iterations for larger problem
    );

    // Run the annealer
    let result = annealer.run_with_stats();

    println!("Initial energy: {}", initial_energy);
    println!("Final energy: {}", result.final_energy);
    println!("Best energy: {}", result.best_energy);
    println!(
        "Improvement: {:.2}%",
        100.0 * (initial_energy - result.best_energy) / initial_energy
    );
    println!(
        "Acceptance ratio: {:.2}%",
        100.0 * result.accepted_moves as f64 / result.iterations as f64
    );

    // The solution should be significantly better than the initial random tour
    assert!(
        result.best_energy < 0.4 * initial_energy,
        "Solution did not improve significantly"
    );
}
