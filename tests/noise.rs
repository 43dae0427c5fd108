use ndarray::Array1;
use ndarray_rand::rand_distr::StandardNormal;
use ndarray_rand::RandomExt;
use ndrustfft::{ndfft, FftHandler};
use num_complex::{Complex, ComplexDistribution};

use stochastic_rs::ensemble::collect_ensemble;
use stochastic_rs::recurrence::euler_path;
use stochastic_rs::error::SimError;
use stochastic_rs::layout::EmbeddingLayout;
use stochastic_rs::spectrum::{guarded_sqrt_spectrum, EigenvalueSign};

struct Noise {
    hurst: f64,
    t: f64,
    layout: EmbeddingLayout,
    roots: Array1<Complex<f64>>,
    handler: FftHandler<f64>,
}

fn covariance(hurst: f64, k: usize) -> f64 {
    if k == 0 {
        return 1.0;
    }
    let x = k as f64;
    let h2 = 2.0 * hurst;
    0.5 * ((x + 1.0).powf(h2) - 2.0 * x.powf(h2) + (x - 1.0).powf(h2))
}

fn sign(x: f64) -> EigenvalueSign {
    if x >= 0.0 {
        EigenvalueSign::NonNegative
    } else if x > -1e-10 {
        EigenvalueSign::NearZero
    } else {
        EigenvalueSign::Negative
    }
}

fn engine(hurst: f64, n: usize, t: f64) -> Noise {
    let layout = EmbeddingLayout::new(n, None).unwrap();
    let r: Vec<f64> = layout.lags().into_iter().map(|k| covariance(hurst, k)).collect();
    let row = layout.extend_circulant(&r);
    let data = Array1::from_iter(row.into_iter().map(|v| Complex::new(v, 0.0)));
    let handler = FftHandler::new(layout.circulant_len());
    let mut eig = Array1::<Complex<f64>>::zeros(layout.circulant_len());
    ndfft(&data, &mut eig, &handler, 0);
    let scale = layout.circulant_len() as f64;
    let real: Vec<f64> = eig.iter().map(|z| z.re / scale).collect();
    let roots = guarded_sqrt_spectrum(&real, 0.0, sign, |x: f64| x.sqrt()).unwrap();
    let roots = Array1::from_iter(roots.into_iter().map(|v| Complex::new(v, 0.0)));
    Noise { hurst, t, layout, roots, handler }
}

fn draw(e: &Noise) -> Vec<f64> {
    let len = e.layout.circulant_len();
    let rnd = Array1::<Complex<f64>>::random(len, ComplexDistribution::new(StandardNormal, StandardNormal));
    let weighted = &e.roots * &rnd;
    let mut out = Array1::<Complex<f64>>::zeros(len);
    ndfft(&weighted, &mut out, &e.handler, 0);
    let scale = (e.layout.padded() as f64).powf(-e.hurst) * e.t.powf(e.hurst);
    let real: Vec<f64> = out.iter().map(|z| z.re * scale).collect();
    e.layout.window(&real)
}

fn mean(v: &[f64]) -> f64 {
    v.iter().sum::<f64>() / v.len() as f64
}

fn variance(v: &[f64]) -> f64 {
    let m = mean(v);
    v.iter().map(|x| (x - m) * (x - m)).sum::<f64>() / (v.len() - 1) as f64
}

fn correlation(a: &[f64], b: &[f64]) -> f64 {
    let (ma, mb) = (mean(a), mean(b));
    let cov: f64 = a.iter().zip(b).map(|(x, y)| (x - ma) * (y - mb)).sum();
    let va: f64 = a.iter().map(|x| (x - ma) * (x - ma)).sum();
    let vb: f64 = b.iter().map(|y| (y - mb) * (y - mb)).sum();
    cov / (va * vb).sqrt()
}

fn column(paths: &[Vec<f64>], i: usize) -> Vec<f64> {
    paths.iter().map(|p| p[i]).collect()
}

#[test]
fn noise_path_has_configured_length() {
    for n in [1usize, 2, 3, 5, 17, 100, 1000] {
        let e = engine(0.7, n, 1.0);
        assert_eq!(draw(&e).len(), n);
    }
}

#[test]
fn spectrum_is_valid_for_usual_exponents() {
    for h in [0.1, 0.3, 0.5, 0.7, 0.9] {
        let e = engine(h, 1000, 1.0);
        assert!(e.roots.iter().all(|z| z.re.is_finite() && z.re >= 0.0));
    }
}

#[test]
fn brownian_increment_variance_is_step_size() {
    let e = engine(0.5, 4, 1.0);
    let paths: Vec<Vec<f64>> = (0..10_000).map(|_| draw(&e)).collect();
    for i in 0..4 {
        let v = variance(&column(&paths, i));
        assert!((v - 0.25).abs() < 0.02, "variance {v}");
    }
}

#[test]
fn brownian_increments_are_uncorrelated() {
    let e = engine(0.5, 8, 1.0);
    let paths: Vec<Vec<f64>> = (0..10_000).map(|_| draw(&e)).collect();
    for i in 0..7 {
        let c = correlation(&column(&paths, i), &column(&paths, i + 1));
        assert!(c.abs() < 0.06, "correlation {c}");
    }
}

#[test]
fn increment_variance_scales_with_step() {
    let h = 0.7;
    let coarse = engine(h, 8, 1.0);
    let fine = engine(h, 16, 1.0);
    let a: Vec<f64> = (0..20_000).map(|_| draw(&coarse)[3]).collect();
    let b: Vec<f64> = (0..20_000).map(|_| draw(&fine)[3]).collect();
    let (va, vb) = (variance(&a), variance(&b));
    assert!((va / (1.0f64 / 8.0).powf(2.0 * h) - 1.0).abs() < 0.06, "variance {va}");
    assert!((vb / (1.0f64 / 16.0).powf(2.0 * h) - 1.0).abs() < 0.06, "variance {vb}");
    let ratio = va / vb;
    assert!((ratio / 2.0f64.powf(2.0 * h) - 1.0).abs() < 0.08, "ratio {ratio}");
}

#[test]
fn ensemble_members_are_uncorrelated() {
    let e = engine(0.5, 1000, 1.0);
    let draws: Vec<Result<Vec<f64>, SimError>> = (0..1000).map(|_| Ok(draw(&e))).collect();
    let paths = collect_ensemble(draws).unwrap();
    assert_eq!(paths.len(), 1000);
    for k in 0..50 {
        let c = correlation(&paths[2 * k], &paths[2 * k + 1]);
        assert!(c.abs() < 0.16, "correlation {c}");
    }
}

#[test]
fn model_path_has_configured_length_and_start() {
    for n in [1usize, 3, 8, 100] {
        let e = engine(0.3, n, 2.0);
        let noise = draw(&e);
        let path = euler_path(100.0, &noise, |x: f64, z: f64| x + 0.5 * (1.0 - x) * (2.0 / n as f64) + 0.2 * z);
        assert_eq!(path.len(), n);
        assert_eq!(path[0], 100.0);
    }
}
