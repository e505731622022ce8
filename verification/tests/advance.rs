use sailfish::cpu;
use sailfish::frozen::FrozenKernel;
use sailfish::omp;
use sailfish::Kernel;
use sailfish::Mesh;
use sailfish::Patch;
use sailfish::Solve;
use sailfish::SolverError;

/// A small isothermal finite-volume kernel pair with a Lax-Friedrichs
/// flux, serial in both roles; outflow values are held in the halo.
#[derive(Clone, Copy)]
struct IsoKernel {
    sound_speed: f64,
}

const FIELDS: usize = 3;

fn halo_index(nj: usize, i: usize, j: usize, k: usize) -> usize {
    (i * (nj + 4) + j) * FIELDS + k
}

fn prim_at(data: &[f64], nj: usize, i: usize, j: usize) -> [f64; 3] {
    let base = halo_index(nj, i, j, 0);
    [data[base], data[base + 1], data[base + 2]]
}

fn conserved_of_prim(p: [f64; 3]) -> [f64; 3] {
    [p[0], p[0] * p[1], p[0] * p[2]]
}

fn flux_x(p: [f64; 3], cs: f64) -> [f64; 3] {
    let pressure = cs * cs * p[0];
    [p[0] * p[1], p[0] * p[1] * p[1] + pressure, p[0] * p[1] * p[2]]
}

fn flux_y(p: [f64; 3], cs: f64) -> [f64; 3] {
    let pressure = cs * cs * p[0];
    [p[0] * p[2], p[0] * p[1] * p[2], p[0] * p[2] * p[2] + pressure]
}

fn lf_flux(
    pl: [f64; 3],
    pr: [f64; 3],
    cs: f64,
    along_x: bool,
) -> [f64; 3] {
    let fl = if along_x { flux_x(pl, cs) } else { flux_y(pl, cs) };
    let fr = if along_x { flux_x(pr, cs) } else { flux_y(pr, cs) };
    let ul = conserved_of_prim(pl);
    let ur = conserved_of_prim(pr);
    let a = cs + pl[1].abs().max(pl[2].abs()).max(pr[1].abs().max(pr[2].abs()));
    let mut f = [0.0; 3];
    for k in 0..3 {
        f[k] = 0.5 * (fl[k] + fr[k]) - 0.5 * a * (ur[k] - ul[k]);
    }
    f
}

impl Kernel<f64> for IsoKernel {
    // The two *_of members are the ghost description of the kernel; they
    // are never called at run time.
    fn conserved_of(
        &self,
        _mesh: Mesh<f64>,
        _primitive: vstd::seq::Seq<f64>,
    ) -> vstd::seq::Seq<f64> {
        unreachable!()
    }

    fn updated_of(
        &self,
        _mesh: Mesh<f64>,
        _conserved: vstd::seq::Seq<f64>,
        _primitive: vstd::seq::Seq<f64>,
        _time: f64,
        _dt: f64,
    ) -> vstd::seq::Seq<f64> {
        unreachable!()
    }

    fn primitive_to_conserved(
        &self,
        mesh: &Mesh<f64>,
        primitive: &Patch<f64>,
        conserved: &mut Patch<f64>,
    ) {
        let ni = mesh.ni() as usize;
        let nj = mesh.nj() as usize;
        for i in 0..ni {
            for j in 0..nj {
                let p = prim_at(&primitive.data, nj, i + 2, j + 2);
                let u = conserved_of_prim(p);
                let base = (i * nj + j) * FIELDS;
                for k in 0..3 {
                    conserved.data[base + k] = u[k];
                }
            }
        }
    }

    fn advance_rk(
        &self,
        mesh: &Mesh<f64>,
        conserved: &Patch<f64>,
        primitive: &Patch<f64>,
        output: &mut Patch<f64>,
        _time: f64,
        dt: f64,
    ) {
        let ni = mesh.ni() as usize;
        let nj = mesh.nj() as usize;
        let cs = self.sound_speed;
        // Halo zones keep their current primitive values (outflow).
        output.data.copy_from_slice(&primitive.data);
        for i in 0..ni {
            for j in 0..nj {
                let (hi, hj) = (i + 2, j + 2);
                let here = prim_at(&primitive.data, nj, hi, hj);
                let left = prim_at(&primitive.data, nj, hi - 1, hj);
                let right = prim_at(&primitive.data, nj, hi + 1, hj);
                let below = prim_at(&primitive.data, nj, hi, hj - 1);
                let above = prim_at(&primitive.data, nj, hi, hj + 1);
                let fw = lf_flux(left, here, cs, true);
                let fe = lf_flux(here, right, cs, true);
                let gs = lf_flux(below, here, cs, false);
                let gn = lf_flux(here, above, cs, false);
                let base = (i * nj + j) * FIELDS;
                let mut u = [0.0; 3];
                for k in 0..3 {
                    u[k] = conserved.data[base + k]
                        - dt / mesh.dx * (fe[k] - fw[k])
                        - dt / mesh.dy * (gn[k] - gs[k]);
                }
                let out_base = halo_index(nj, hi, hj, 0);
                output.data[out_base] = u[0];
                output.data[out_base + 1] = u[1] / u[0];
                output.data[out_base + 2] = u[2] / u[0];
            }
        }
    }
}

fn square_mesh(domain_radius: f64, resolution: u32) -> Mesh<f64> {
    let spacing = 2.0 * domain_radius / resolution as f64;
    Mesh::centered_square(-domain_radius, spacing, resolution)
}

fn uniform_field(resolution: usize, density: f64) -> Vec<f64> {
    let zones = (resolution + 4) * (resolution + 4);
    let mut field = Vec::with_capacity(zones * FIELDS);
    for _ in 0..zones {
        field.push(density);
        field.push(0.0);
        field.push(0.0);
    }
    field
}

/// The interior restriction that `primitive()` returns: the halo of depth
/// 2 stripped off, row-major over `resolution * resolution` zones.
fn interior_of(field: &[f64], resolution: usize) -> Vec<f64> {
    let side = resolution + 4;
    let mut interior = Vec::new();
    for i in 0..resolution {
        for j in 0..resolution {
            let base = ((i + 2) * side + (j + 2)) * FIELDS;
            interior.extend_from_slice(&field[base..base + FIELDS]);
        }
    }
    interior
}

fn wavy_field(resolution: usize) -> Vec<f64> {
    let side = resolution + 4;
    let mut field = Vec::with_capacity(side * side * FIELDS);
    for i in 0..side {
        for j in 0..side {
            let x = i as f64 * 0.1;
            let y = j as f64 * 0.1;
            field.push(1.0 + 0.1 * (x + y).sin());
            field.push(0.05 * x.cos());
            field.push(-0.05 * y.sin());
        }
    }
    field
}

#[test]
fn unsupported_order_is_rejected_and_mutates_nothing() {
    let kernel = IsoKernel { sound_speed: 1.0 };
    let mesh = square_mesh(1.0, 8);
    let mut solver = cpu::Solver::new(mesh, wavy_field(8), kernel, 0.0);
    let before = solver.primitive();
    assert_eq!(solver.advance(2, 1e-3), Err(SolverError::UnsupportedOperation));
    assert_eq!(solver.advance(0, 1e-3), Err(SolverError::UnsupportedOperation));
    assert_eq!(solver.primitive(), before);
}

#[test]
fn uniform_field_is_steady() {
    let kernel = IsoKernel { sound_speed: 1.0 };
    let mesh = square_mesh(1.0, 16);
    let mut solver = cpu::Solver::new(mesh, uniform_field(16, 1.0), kernel, 0.0);
    let before = solver.primitive();
    assert_eq!(solver.advance(1, 1e-3), Ok(()));
    let after = solver.primitive();
    assert_eq!(before.len(), after.len());
    for (b, a) in before.iter().zip(after.iter()) {
        assert!((b - a).abs() <= 1e-14, "uniform field drifted: {b} -> {a}");
    }
}

#[test]
fn nonuniform_field_actually_changes() {
    let kernel = IsoKernel { sound_speed: 1.0 };
    let mesh = square_mesh(1.0, 8);
    let mut solver = cpu::Solver::new(mesh, wavy_field(8), kernel, 0.0);
    let before = solver.primitive();
    assert_eq!(solver.advance(1, 1e-3), Ok(()));
    let after = solver.primitive();
    assert!(before.iter().zip(after.iter()).any(|(b, a)| b != a));
}

#[test]
fn serial_and_parallel_backends_agree() {
    let kernel = IsoKernel { sound_speed: 0.7 };
    let mesh = square_mesh(2.0, 12);
    let field = wavy_field(12);
    let mut serial = cpu::Solver::new(mesh.clone(), field.clone(), kernel, 0.0);
    let mut parallel = omp::Solver::new(mesh, field, kernel, 0.0);
    for _ in 0..4 {
        assert_eq!(serial.advance(1, 5e-4), Ok(()));
        assert_eq!(parallel.advance(1, 5e-4), Ok(()));
        assert_eq!(serial.primitive(), parallel.primitive());
    }
}

#[test]
fn identically_constructed_solvers_are_deterministic() {
    let kernel = IsoKernel { sound_speed: 1.0 };
    let mesh = square_mesh(1.0, 10);
    let field = wavy_field(10);
    let mut first = cpu::Solver::new(mesh.clone(), field.clone(), kernel, 0.0);
    let mut second = cpu::Solver::new(mesh, field, kernel, 0.0);
    for _ in 0..6 {
        assert_eq!(first.advance(1, 1e-3), Ok(()));
        assert_eq!(second.advance(1, 1e-3), Ok(()));
        assert_eq!(first.primitive(), second.primitive());
    }
}

#[test]
fn frozen_kernel_changes_nothing_on_either_backend() {
    let mesh = square_mesh(1.0, 9);
    let field = wavy_field(9);
    let mut serial = cpu::Solver::new(mesh.clone(), field.clone(), FrozenKernel, 0.0);
    let mut parallel = omp::Solver::new(mesh, field.clone(), FrozenKernel, 0.0);
    for _ in 0..3 {
        assert_eq!(serial.advance(1, 0.25), Ok(()));
        assert_eq!(parallel.advance(1, 0.25), Ok(()));
    }
    assert_eq!(serial.primitive(), interior_of(&field, 9));
    assert_eq!(parallel.primitive(), interior_of(&field, 9));
}

#[test]
fn primitive_returns_initial_field_before_any_step() {
    let kernel = IsoKernel { sound_speed: 1.0 };
    let mesh = square_mesh(1.0, 8);
    let field = wavy_field(8);
    let solver = cpu::Solver::new(mesh, field.clone(), kernel, 0.0);
    let flat = solver.primitive();
    assert_eq!(flat.len(), 8 * 8 * FIELDS);
    assert_eq!(flat, interior_of(&field, 8));
}
