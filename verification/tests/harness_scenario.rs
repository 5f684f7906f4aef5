use sgemm_harness::registry::{KernelDescriptor, KernelRegistry};
use sgemm_harness::verdict::{battery_sizes, overall_verdict, CheckResult};

// A tiny deterministic generator standing in for the randomized fixture
// mode: values uniform in [-1.0, 1.0).
struct Lcg(u64);

impl Lcg {
    fn next_unit(&mut self) -> f32 {
        self.0 = self.0.wrapping_mul(6364136223846793005).wrapping_add(1442695040888963407);
        let mantissa = (self.0 >> 40) as f32 / (1u64 << 24) as f32;
        mantissa * 2.0 - 1.0
    }

    fn matrix(&mut self, len: usize) -> Vec<f32> {
        (0..len).map(|_| self.next_unit()).collect()
    }
}

// Host-side single-precision reference product.
fn reference_product(n: usize, a: &[f32], b: &[f32]) -> Vec<f32> {
    let mut c = vec![0.0f32; n * n];
    for row in 0..n {
        for col in 0..n {
            let mut acc = 0.0f32;
            for kk in 0..n {
                acc += a[row * n + kk] * b[kk * n + col];
            }
            c[row * n + col] = acc;
        }
    }
    c
}

// An "identity-like" kernel: implements the multiply contract exactly as
// the reference does.
fn good_kernel(n: usize, a: &[f32], b: &[f32]) -> Vec<f32> {
    reference_product(n, a, b)
}

// A deliberately broken kernel: omits the last term of every inner
// product.
fn broken_kernel(n: usize, a: &[f32], b: &[f32]) -> Vec<f32> {
    let mut c = vec![0.0f32; n * n];
    for row in 0..n {
        for col in 0..n {
            let mut acc = 0.0f32;
            for kk in 0..n.saturating_sub(1) {
                acc += a[row * n + kk] * b[kk * n + col];
            }
            c[row * n + col] = acc;
        }
    }
    c
}

fn max_abs_deviation(got: &[f32], want: &[f32]) -> f32 {
    got.iter().zip(want.iter()).map(|(g, w)| (g - w).abs()).fold(0.0f32, f32::max)
}

fn run_battery(kernel: fn(usize, &[f32], &[f32]) -> Vec<f32>, name: &str) -> Vec<CheckResult> {
    let mut rng = Lcg(0x5EED);
    let mut results = Vec::new();
    for &size in battery_sizes().iter() {
        // Fresh matrices per size; no reuse across sizes.
        let n = size as usize;
        let a = rng.matrix(n * n);
        let b = rng.matrix(n * n);
        let reference = reference_product(n, &a, &b);
        let device_out = kernel(n, &a, &b);
        let deviation = max_abs_deviation(&device_out, &reference);
        results.push(CheckResult::new(String::from(name), size, deviation.to_bits()));
    }
    results
}

#[test]
fn correct_kernel_passes_every_battery_size() {
    let results = run_battery(good_kernel, "exact");
    assert_eq!(results.len(), 5);
    for r in &results {
        assert!(r.passed);
        assert_eq!(f32::from_bits(r.deviation_bits), 0.0);
    }
    assert!(overall_verdict(&results));
}

#[test]
fn broken_kernel_fails_every_battery_size() {
    let results = run_battery(broken_kernel, "dropped_term");
    assert_eq!(results.len(), 5);
    for r in &results {
        assert!(!r.passed);
        // The missing inner-product term leaves a deviation well away
        // from zero, far over the 1e-3 tolerance.
        assert!(f32::from_bits(r.deviation_bits) > 1e-2);
    }
    assert!(!overall_verdict(&results));
}

#[test]
fn end_to_end_registry_drives_the_battery() {
    let mut registry = KernelRegistry::new();
    assert!(registry.register(KernelDescriptor {
        name: String::from("exact"),
        source_path: String::from("shaders/sgemm.metal"),
        entry_point: String::from("sgemm"),
        tile_width: 8,
        tile_height: 8,
    }));
    let mut verdicts = Vec::new();
    for i in 0..registry.len() {
        let descriptor = registry.get(i);
        let results = run_battery(good_kernel, &descriptor.name);
        verdicts.push(overall_verdict(&results));
    }
    assert_eq!(verdicts, vec![true]);
}
