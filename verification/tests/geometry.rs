use sailfish::BufferZone;
use sailfish::EquationOfState;
use sailfish::ExecutionMode;
use sailfish::Mesh;
use sailfish::Patch;
use sailfish::PointMass;

fn square_mesh(domain_radius: f64, resolution: u32) -> Mesh<f64> {
    let spacing = 2.0 * domain_radius / resolution as f64;
    Mesh::centered_square(-domain_radius, spacing, resolution)
}

#[test]
fn centered_square_zone_counts_and_spacing() {
    let mesh = square_mesh(10.0, 100);
    assert_eq!(mesh.ni(), 100);
    assert_eq!(mesh.nj(), 100);
    assert_eq!(mesh.ni, 100);
    assert_eq!(mesh.nj, 100);
    assert_eq!(mesh.dx, 0.2);
    assert_eq!(mesh.dy, 0.2);
    assert_eq!(mesh.x0, -10.0);
    assert_eq!(mesh.y0, -10.0);
    assert_eq!(mesh.num_total_zones(), 10000);
    assert_eq!(mesh.shape(), [100, 100]);
}

#[test]
fn cell_center_formula() {
    let mesh = square_mesh(8.0, 16);
    // The cell-center coordinate of zone (i, j) is
    // (x0 + (i + 0.5) * dx, y0 + (j + 0.5) * dy).
    let x_first = mesh.x0 + 0.5 * mesh.dx;
    let y_first = mesh.y0 + 0.5 * mesh.dy;
    assert_eq!(x_first, -8.0 + 0.5);
    assert_eq!(y_first, -8.0 + 0.5);
    let x_last = mesh.x0 + (15.0 + 0.5) * mesh.dx;
    let y_last = mesh.y0 + (15.0 + 0.5) * mesh.dy;
    assert_eq!(x_last, 8.0 - 0.5);
    assert_eq!(y_last, 8.0 - 0.5);
}

#[test]
fn strides_are_row_major_with_three_fields() {
    let mesh = square_mesh(1.0, 40);
    assert_eq!(mesh.strides(), [120, 3]);
    // The flat index of field k at zone (i, j) is i * 3 * nj + j * 3 + k.
    let strides = mesh.strides();
    let flat = 7 * strides[0] + 5 * strides[1] + 2;
    assert_eq!(flat, 7 * 120 + 5 * 3 + 2);
    assert!(flat < mesh.num_total_zones() * 3);
}

#[test]
fn patch_round_trip() {
    let data: Vec<f64> = (0..2 * 3 * 3).map(|v| v as f64 * 0.5).collect();
    let patch = Patch::from_vec([0, 0], [2, 3], 3, &data);
    assert_eq!(patch.to_vec(), data);
    assert_eq!(patch.origin, [0, 0]);
    assert_eq!(patch.shape, [2, 3]);
    assert_eq!(patch.num_fields, 3);
}

#[test]
fn patch_round_trip_with_halo_origin() {
    let data: Vec<f64> = (0..6 * 7 * 3).map(|v| (v % 17) as f64).collect();
    let patch = Patch::from_vec([-2, -2], [6, 7], 3, &data);
    assert_eq!(patch.to_vec(), data);
    assert_eq!(patch.origin, [-2, -2]);
}

#[test]
fn zeros_is_zero_filled() {
    let patch = Patch::zeros([-2, -2], [5, 4], 3, 0.0f64);
    let flat = patch.to_vec();
    assert_eq!(flat.len(), 5 * 4 * 3);
    assert!(flat.iter().all(|&v| v == 0.0));
}

#[test]
fn physics_records_are_plain_values() {
    let eos: EquationOfState<f64> = EquationOfState::Isothermal { sound_speed: 1.0 };
    assert!(matches!(eos, EquationOfState::Isothermal { sound_speed } if sound_speed == 1.0));
    let eos = EquationOfState::LocallyIsothermal { mach_number: 10.0 };
    assert!(matches!(eos, EquationOfState::LocallyIsothermal { mach_number } if mach_number == 10.0));
    let eos = EquationOfState::GammaLaw { gamma_law_index: 5.0 / 3.0 };
    assert!(matches!(eos, EquationOfState::GammaLaw { .. }));

    let body = PointMass { x: 1.0, y: -1.0, mass: 1e-3, rate: 0.1, radius: 0.05 };
    let copy = body;
    assert_eq!(copy.x, 1.0);
    assert_eq!(copy.mass, 1e-3);

    let buffer: BufferZone<f64> = BufferZone::Inactive;
    assert!(matches!(buffer, BufferZone::Inactive));
    let buffer = BufferZone::Keplerian {
        surface_density: 1.0,
        central_mass: 1.0,
        driving_rate: 10.0,
        outer_radius: 9.0,
        onset_width: 1.0,
    };
    assert!(matches!(buffer, BufferZone::Keplerian { outer_radius, .. } if outer_radius == 9.0));

    let mode = ExecutionMode::CPU;
    let _again = mode;
    assert!(matches!(mode, ExecutionMode::CPU));
    assert!(matches!(ExecutionMode::OMP, ExecutionMode::OMP));
    assert!(matches!(ExecutionMode::GPU, ExecutionMode::GPU));
}

#[test]
fn empty_patch_round_trip() {
    let data: Vec<f64> = Vec::new();
    let patch = Patch::from_vec([0, 0], [0, 5], 3, &data);
    assert_eq!(patch.to_vec(), data);
    let zeroed = Patch::zeros([0, 0], [5, 0], 3, 0.0f64);
    assert_eq!(zeroed.to_vec().len(), 0);
}
