use lyapunov_markus::color::{pixel_color, ramp_color, SENTINEL};
use lyapunov_markus::config::RenderConfig;
use lyapunov_markus::image::ImageBuffer;
use lyapunov_markus::estimator::Estimator;
use lyapunov_markus::sequence::ConfigError;

const BOUND: f64 = 1e12;

fn config(rule: &str, depth: u32, warmup: u32) -> RenderConfig {
    RenderConfig::validate(&rule.chars().collect(), depth, warmup).unwrap()
}

// Runs the floating-point recurrence under the library's step control and
// returns the normalised exponent and the number of steps taken.
fn estimate(c: &RenderConfig, a: f64, b: f64) -> (f64, u32) {
    let rates = c.rates(a, b);
    let mut ctl = c.estimator();
    let mut x = 0.5f64;
    let mut lambda = 0.0f64;
    while let Some(n) = ctl.current_step() {
        let r = rates[c.rate_index(n)];
        if ctl.accumulates(x == 0.5) {
            lambda += (r * (1.0 - 2.0 * x)).abs().ln();
        }
        x = r * x * (1.0 - x);
        ctl.finish_step(lambda > BOUND || lambda < -BOUND);
    }
    (lambda / ctl.divisor() as f64, ctl.steps_taken())
}

#[test]
fn new_checks_iteration_config() {
    assert!(matches!(Estimator::new(300, 20), Ok(_)));
    assert!(matches!(Estimator::new(20, 20), Err(ConfigError::InvalidIterationConfig)));
    assert!(matches!(Estimator::new(0, 0), Err(ConfigError::InvalidIterationConfig)));
}

#[test]
fn full_run_takes_every_step() {
    let mut e = Estimator::start(5, 2);
    let mut seen = Vec::new();
    while let Some(n) = e.current_step() {
        seen.push(n);
        e.finish_step(false);
    }
    assert_eq!(seen, vec![0, 1, 2, 3, 4]);
    assert_eq!(e.steps_taken(), 5);
    assert_eq!(e.divisor(), 3);
}

#[test]
fn warmup_skips_only_at_start_point() {
    let mut e = Estimator::start(30, 20);
    assert!(!e.accumulates(true));
    assert!(e.accumulates(false));
    for _ in 0..20 {
        e.finish_step(false);
    }
    assert_eq!(e.current_step(), Some(20));
    assert!(!e.accumulates(true));
    e.finish_step(false);
    assert_eq!(e.current_step(), Some(21));
    assert!(e.accumulates(true));
}

#[test]
fn divergence_stops_early_with_full_divisor() {
    let mut e = Estimator::start(300, 20);
    e.finish_step(false);
    e.finish_step(false);
    e.finish_step(true);
    assert_eq!(e.current_step(), None);
    assert_eq!(e.steps_taken(), 3);
    assert_eq!(e.divisor(), 280);
}

#[test]
fn early_exit_on_diverging_point() {
    // At rate 2 the orbit stays on one half; past the warmup the term is
    // ln 0, the sum leaves the bound and the loop stops at once.
    let c = config("AB", 300, 20);
    let (lambda, steps) = estimate(&c, 2.0, 2.0);
    assert_eq!(steps, 22);
    assert!(steps < 300);
    assert_eq!(c.estimator().divisor(), 280);
    assert!(lambda < 0.0);
}

#[test]
fn single_symbol_stable_rate_is_negative() {
    let c = config("A", 300, 20);
    let (lambda, _) = estimate(&c, 2.0, 3.9);
    assert!(lambda < 0.0);
    let (lambda, steps) = estimate(&c, 2.8, 3.9);
    assert!(lambda < 0.0);
    assert_eq!(steps, 300);
}

#[test]
fn estimation_is_deterministic() {
    let c = config("BBBBBBAAAAAA", 300, 20);
    let first = estimate(&c, 3.7, 2.9);
    let second = estimate(&c, 3.7, 2.9);
    assert_eq!(first.0.to_bits(), second.0.to_bits());
    assert_eq!(first.1, second.1);
}

#[test]
fn first_pixel_of_default_diagram() {
    let c = config("BBBBBBAAAAAA", 300, 20);
    let img = ImageBuffer::new(800, 800);
    let (col, row) = img.next_pixel().unwrap();
    assert_eq!((col, row), (0, 0));
    let a = 3.4 + (4.0 - 3.4) * (col as f64 / 800.0);
    let b = 2.5 + (3.4 - 2.5) * (row as f64 / 800.0);
    assert_eq!((a, b), (3.4, 2.5));
    let (lambda, _) = estimate(&c, a, b);
    let shaded = ramp_color(None, Some(7), Some(9));
    let color = pixel_color(lambda > 0.0, shaded);
    if lambda > 0.0 {
        assert_eq!(color, SENTINEL);
    } else {
        assert_eq!(color, shaded);
    }
}
