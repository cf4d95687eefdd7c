use haptic::Vec3;
use haptic::Vec4;
use haptic::EPSILON;

const PRECISION: f32 = 1e-5;

fn b(x: f32) -> u32 {
    x.to_bits()
}

fn v3(x: f32, y: f32, z: f32) -> Vec3 {
    Vec3::new(b(x), b(y), b(z))
}

fn fbits(x: u32) -> f32 {
    f32::from_bits(x)
}

/// Helper function for approximate floating-point equality
fn approx_eq(a: f32, b: f32, eps: f32) -> bool {
    (a - b).abs() < eps
}

/// Helper function for approximate Vec3 equality
fn approx_eq_vec3(a: Vec3, b: Vec3, eps: f32) -> bool {
    approx_eq(fbits(a.x), fbits(b.x), eps)
        && approx_eq(fbits(a.y), fbits(b.y), eps)
        && approx_eq(fbits(a.z), fbits(b.z), eps)
}

#[test]
fn test_all_constructors() {
    // Basic constructor
    let v = v3(1.5, -2.5, 3.7);
    assert_eq!(fbits(v.x), 1.5);
    assert_eq!(fbits(v.y), -2.5);
    assert_eq!(fbits(v.z), 3.7);

    // Special constructors
    assert_eq!(Vec3::zero(), v3(0.0, 0.0, 0.0));
    assert_eq!(Vec3::one(), v3(1.0, 1.0, 1.0));
    assert_eq!(Vec3::unit_x(), v3(1.0, 0.0, 0.0));
    assert_eq!(Vec3::unit_y(), v3(0.0, 1.0, 0.0));
    assert_eq!(Vec3::unit_z(), v3(0.0, 0.0, 1.0));
    assert_eq!(Vec3::splat(b(5.0)), v3(5.0, 5.0, 5.0));
}

#[test]
fn test_arithmetic_operations_comprehensive() {
    let a = v3(2.0, 3.0, 4.0);
    let bb = v3(-1.0, 2.0, -3.0);

    // Addition
    assert_eq!(a.add(bb), v3(1.0, 5.0, 1.0));

    // Subtraction
    assert_eq!(a.sub(bb), v3(3.0, 1.0, 7.0));

    // Scalar multiplication
    assert_eq!(a.mul(b(2.5)), v3(5.0, 7.5, 10.0));
    assert_eq!(a.mul(b(3.0)), v3(6.0, 9.0, 12.0));

    // Scalar division
    assert_eq!(a.div(b(2.0)), v3(1.0, 1.5, 2.0));

    // Negation
    assert_eq!(a.neg(), v3(-2.0, -3.0, -4.0));

    // Assignment operators
    let mut v = a;
    v.add_assign(bb);
    assert_eq!(v, v3(1.0, 5.0, 1.0));

    v.sub_assign(bb);
    assert_eq!(v, a);

    v.mul_assign(b(2.0));
    assert_eq!(v, v3(4.0, 6.0, 8.0));

    v.div_assign(b(2.0));
    assert_eq!(v, a);
}

#[test]
fn test_dot_product_comprehensive() {
    let a = v3(1.0, 2.0, 3.0);
    let bb = v3(4.0, -5.0, 6.0);

    // Manual calculation: 1*4 + 2*(-5) + 3*6 = 4 - 10 + 18 = 12
    assert_eq!(fbits(a.dot(bb)), 12.0);

    // Properties
    assert_eq!(fbits(a.dot(bb)), fbits(bb.dot(a))); // Commutative
    assert_eq!(fbits(a.dot(Vec3::zero())), 0.0); // Zero vector
    assert_eq!(fbits(Vec3::unit_x().dot(Vec3::unit_x())), 1.0); // Unit vectors
    assert_eq!(fbits(Vec3::unit_x().dot(Vec3::unit_y())), 0.0); // Orthogonal
}

#[test]
fn test_cross_product_comprehensive() {
    let a = v3(1.0, 0.0, 0.0);
    let bb = v3(0.0, 1.0, 0.0);
    let c = v3(0.0, 0.0, 1.0);

    // Right-hand rule
    assert!(approx_eq_vec3(a.cross(bb), c, PRECISION));
    assert!(approx_eq_vec3(bb.cross(c), a, PRECISION));
    assert!(approx_eq_vec3(c.cross(a), bb, PRECISION));

    // Anti-commutative
    assert!(approx_eq_vec3(a.cross(bb), bb.cross(a).neg(), PRECISION));

    // Parallel vectors
    assert!(approx_eq_vec3(a.cross(a), Vec3::zero(), PRECISION));
    assert!(approx_eq_vec3(a.cross(a.mul(b(2.0))), Vec3::zero(), PRECISION));

    // General case
    let v1 = v3(2.0, 3.0, 4.0);
    let v2 = v3(5.0, 6.0, 7.0);
    let cross = v1.cross(v2);

    // Cross-product should be orthogonal to both vectors
    assert!(approx_eq(fbits(cross.dot(v1)), 0.0, PRECISION));
    assert!(approx_eq(fbits(cross.dot(v2)), 0.0, PRECISION));
}

#[test]
fn test_length_operations_comprehensive() {
    // Known lengths
    let v1 = v3(3.0, 4.0, 0.0);
    assert!(approx_eq(fbits(v1.length()), 5.0, PRECISION));
    assert_eq!(fbits(v1.length_squared()), 25.0);

    let v2 = v3(1.0, 1.0, 1.0);
    assert!(approx_eq(fbits(v2.length()), 3.0_f32.sqrt(), PRECISION));
    assert_eq!(fbits(v2.length_squared()), 3.0);

    // Zero vector
    assert_eq!(fbits(Vec3::zero().length()), 0.0);
    assert_eq!(fbits(Vec3::zero().length_squared()), 0.0);

    // Negative components
    let v3_val = v3(-3.0, -4.0, 0.0);
    assert!(approx_eq(fbits(v3_val.length()), 5.0, PRECISION));
}

#[test]
fn test_normalization_comprehensive() {
    // Standard case
    let v = v3(3.0, 4.0, 0.0);
    let normalized = v.normalize();
    assert!(approx_eq(fbits(normalized.length()), 1.0, PRECISION));
    assert!(approx_eq_vec3(normalized, v3(0.6, 0.8, 0.0), PRECISION));

    // Already normalized
    let unit = Vec3::unit_x();
    assert!(approx_eq_vec3(unit.normalize(), unit, PRECISION));

    // Zero vector
    assert_eq!(Vec3::zero().normalize(), Vec3::zero());

    // Very small vector (should return zero)
    let tiny = v3(1e-8, 1e-8, 1e-8);
    assert_eq!(tiny.normalize(), Vec3::zero());

    // try_normalize
    assert!(v.try_normalize().is_some());
    assert!(Vec3::zero().try_normalize().is_none());
    assert!(tiny.try_normalize().is_none());

    // Fast normalize (should be similar to regular normalize)
    let fast_normalized = v.normalize_fast();
    assert!(approx_eq(fbits(fast_normalized.length()), 1.0, PRECISION));
}

#[test]
fn test_distance_operations() {
    let a = v3(0.0, 0.0, 0.0);
    let bb = v3(3.0, 4.0, 0.0);
    let c = v3(1.0, 1.0, 1.0);

    assert!(approx_eq(fbits(a.distance_to(bb)), 5.0, PRECISION));
    assert_eq!(fbits(a.distance_squared_to(bb)), 25.0);

    // Distance is symmetric
    assert!(approx_eq(
        fbits(a.distance_to(bb)),
        fbits(bb.distance_to(a)),
        PRECISION
    ));

    // Distance to self is zero
    assert_eq!(fbits(a.distance_to(a)), 0.0);

    // Triangle inequality
    assert!(fbits(a.distance_to(c)) <= fbits(a.distance_to(bb)) + fbits(bb.distance_to(c)) + PRECISION);
}

#[test]
fn test_component_wise_operations() {
    let a = v3(1.0, -2.0, 3.0);
    let bb = v3(-2.0, 4.0, 1.0);

    // Min/Max
    assert_eq!(a.min(bb), v3(-2.0, -2.0, 1.0));
    assert_eq!(a.max(bb), v3(1.0, 4.0, 3.0));

    // Abs
    assert_eq!(a.abs(), v3(1.0, 2.0, 3.0));
    assert_eq!(bb.abs(), v3(2.0, 4.0, 1.0));

    // Clamp
    let min = v3(-1.0, -1.0, -1.0);
    let max = v3(2.0, 2.0, 2.0);
    assert_eq!(a.clamp(min, max), v3(1.0, -1.0, 2.0));

    // Floor, ceil, round
    let v = v3(1.7, -2.3, 3.5);
    assert_eq!(v.floor(), v3(1.0, -3.0, 3.0));
    assert_eq!(v.ceil(), v3(2.0, -2.0, 4.0));
    assert_eq!(v.round(), v3(2.0, -2.0, 4.0));
}

#[test]
fn test_interpolation_operations() {
    let a = v3(0.0, 0.0, 0.0);
    let bb = v3(4.0, 6.0, 8.0);

    // Linear interpolation
    assert_eq!(a.lerp(bb, b(0.0)), a);
    assert_eq!(a.lerp(bb, b(1.0)), bb);
    assert_eq!(a.lerp(bb, b(0.5)), v3(2.0, 3.0, 4.0));
    assert_eq!(a.lerp(bb, b(0.25)), v3(1.0, 1.5, 2.0));

    // Spherical linear interpolation
    let u1 = Vec3::unit_x();
    let u2 = Vec3::unit_y();
    let slerped = u1.slerp(u2, b(0.5));

    // Should be normalized
    assert!(approx_eq(fbits(slerped.length()), 1.0, PRECISION));

    // Should be between the two vectors
    assert!(fbits(slerped.dot(u1)) > 0.0);
    assert!(fbits(slerped.dot(u2)) > 0.0);

    // Edge cases for slerp
    assert!(approx_eq_vec3(u1.slerp(u1, b(0.5)), u1, PRECISION)); // Same vector
    assert!(approx_eq_vec3(
        u1.slerp(u1.neg(), b(0.5)),
        u1.lerp(u1.neg(), b(0.5)).normalize(),
        PRECISION
    )); // Opposite vectors
}

#[test]
fn test_reflection_and_refraction() {
    // Reflection
    let incident = v3(1.0, -1.0, 0.0).normalize();
    let normal = Vec3::unit_y();
    let reflected = incident.reflect(normal);

    // Angle of incidence equals angle of reflection
    assert!(approx_eq(
        fbits(incident.dot(normal.neg())),
        fbits(reflected.dot(normal)),
        PRECISION
    ));

    // Known reflection case
    assert!(approx_eq_vec3(
        reflected.normalize(),
        v3(1.0, 1.0, 0.0).normalize(),
        PRECISION
    ));

    // Refraction
    let incident_refract = v3(1.0, -1.0, 0.0).normalize();
    let eta = 0.75; // Going from denser to less dense medium

    if let Some(refracted) = incident_refract.refract(normal, b(eta)) {
        // Should be on the opposite side of normal
        assert!(fbits(refracted.dot(normal)) < 0.0);
    }

    // Total internal reflection case: a grazing incident vector and a high
    // index ratio leave Snell's equation without a real solution
    let grazing_incident = v3(1.0, -0.1, 0.0).normalize();
    let high_eta = 2.0;
    assert!(grazing_incident.refract(normal, b(high_eta)).is_none());
}

#[test]
fn test_projection_operations() {
    let a = v3(3.0, 4.0, 0.0);
    let bb = Vec3::unit_x();

    // Projection onto unit vector
    let proj = a.project_onto(bb);
    assert!(approx_eq_vec3(proj, v3(3.0, 0.0, 0.0), PRECISION));

    // Rejection (perpendicular component)
    let rej = a.reject_from(bb);
    assert!(approx_eq_vec3(rej, v3(0.0, 4.0, 0.0), PRECISION));

    // Projection + rejection should equal the original
    assert!(approx_eq_vec3(proj.add(rej), a, PRECISION));

    // Projection should be parallel to the target vector
    assert!(approx_eq(fbits(proj.cross(bb).length()), 0.0, PRECISION));
}

#[test]
fn test_coordinate_transformations() {
    let v = v3(1.0, 2.0, 3.0);

    // Extension to Vec4
    let v4_point = v.to_point();
    let v4_direction = v.to_direction();
    let v4_custom = v.extend(b(5.0));

    assert_eq!(v4_point, Vec4::new(b(1.0), b(2.0), b(3.0), b(1.0)));
    assert_eq!(v4_direction, Vec4::new(b(1.0), b(2.0), b(3.0), b(0.0)));
    assert_eq!(v4_custom, Vec4::new(b(1.0), b(2.0), b(3.0), b(5.0)));

    // Truncation from Vec4
    assert_eq!(v4_point.truncate(), v);
    assert_eq!(v4_direction.truncate(), v);

    // Perspective division
    let v4_perspective = Vec4::new(b(2.0), b(4.0), b(6.0), b(2.0));
    assert_eq!(v4_perspective.truncate_with_perspective(), v);

    // Division by zero case
    let v4_zero_w = Vec4::new(b(1.0), b(2.0), b(3.0), b(0.0));
    assert_eq!(v4_zero_w.truncate_with_perspective(), Vec3::zero());
}

#[test]
fn test_utility_methods() {
    // Finite checks
    let finite = v3(1.0, 2.0, 3.0);
    assert!(finite.is_finite());
    assert!(!finite.is_nan());

    let infinite = v3(f32::INFINITY, 2.0, 3.0);
    assert!(!infinite.is_finite());

    let nan = v3(f32::NAN, 2.0, 3.0);
    assert!(!nan.is_finite());
    assert!(nan.is_nan());

    // Zero and normalized checks
    assert!(Vec3::zero().is_zero());
    assert!(!finite.is_zero());

    let tiny = v3(1e-8, 1e-8, 1e-8);
    assert!(tiny.is_zero());

    assert!(Vec3::unit_x().is_normalized());
    assert!(!v3(2.0, 0.0, 0.0).is_normalized());

    // Component extremes
    let v = v3(-5.0, 3.0, -7.0);
    assert_eq!(fbits(v.max_component()), 7.0);
    assert_eq!(fbits(v.min_component()), 3.0);

    // Swizzling
    let original = v3(1.0, 2.0, 3.0);
    assert_eq!(original.swizzle(2, 1, 0), v3(3.0, 2.0, 1.0)); // zyx
    assert_eq!(original.swizzle(0, 0, 0), v3(1.0, 1.0, 1.0)); // xxx
}

#[test]
fn test_indexing_comprehensive() {
    let v = v3(10.0, 20.0, 30.0);

    // Read access
    assert_eq!(fbits(v.at(0)), 10.0);
    assert_eq!(fbits(v.at(1)), 20.0);
    assert_eq!(fbits(v.at(2)), 30.0);

    // Write access
    let mut v_mut = v;
    v_mut.set_at(0, b(100.0));
    v_mut.set_at(1, b(200.0));
    v_mut.set_at(2, b(300.0));
    assert_eq!(v_mut, v3(100.0, 200.0, 300.0));
}

#[test]
fn test_conversions_comprehensive() {
    let v = v3(1.5, -2.5, 3.7);

    // Array conversions
    let arr: [u32; 3] = v.to_array();
    assert_eq!(arr.map(f32::from_bits), [1.5, -2.5, 3.7]);
    assert_eq!(Vec3::from_array(arr), v);
    assert_eq!(
        Vec3::from_array([b(1.0), b(2.0), b(3.0)]),
        v3(1.0, 2.0, 3.0)
    );

    // Tuple conversions
    let tuple: (u32, u32, u32) = v.to_tuple();
    assert_eq!(
        (fbits(tuple.0), fbits(tuple.1), fbits(tuple.2)),
        (1.5, -2.5, 3.7)
    );
    assert_eq!(Vec3::from_tuple(tuple), v);
    assert_eq!(
        Vec3::from_tuple((b(1.0), b(2.0), b(3.0))),
        v3(1.0, 2.0, 3.0)
    );
}

#[test]
fn test_default_and_display() {
    // Default should be zero vector
    assert_eq!(Vec3::default(), Vec3::zero());
}

#[test]
fn test_special_values() {
    // Very large values
    let large = v3(1e30, 1e30, 1e30);
    assert!(large.is_finite());
    assert!(fbits(large.length()) > 1e30);

    // Very small values (small enough to be near zero, large enough that
    // their squares do not underflow to zero)
    let small = v3(1e-20, 1e-20, 1e-20);
    assert!(small.is_finite());
    assert!(fbits(small.length()) > 0.0);

    // Mixed special values
    let mixed = v3(0.0, -0.0, 1.0);
    assert!(mixed.is_finite());
    assert_eq!(fbits(mixed.y), -0.0);
}

#[test]
fn test_mathematical_properties() {
    let a = v3(1.0, 2.0, 3.0);
    let bb = v3(4.0, 5.0, 6.0);
    let c = v3(7.0, 8.0, 9.0);
    let s = 2.5;

    // Vector addition is commutative and associative
    assert!(approx_eq_vec3(a.add(bb), bb.add(a), PRECISION));
    assert!(approx_eq_vec3(a.add(bb).add(c), a.add(bb.add(c)), PRECISION));

    // Scalar multiplication is distributive
    assert!(approx_eq_vec3(
        a.add(bb).mul(b(s)),
        a.mul(b(s)).add(bb.mul(b(s))),
        PRECISION
    ));

    // Dot product properties
    assert!(approx_eq(fbits(a.dot(bb)), fbits(bb.dot(a)), PRECISION)); // Commutative
    assert!(approx_eq(
        fbits(a.mul(b(s)).dot(bb)),
        s * fbits(a.dot(bb)),
        PRECISION
    )); // Scalar multiplication

    // Cross product properties
    assert!(approx_eq_vec3(a.cross(bb), bb.cross(a).neg(), PRECISION)); // Anti-commutative
    assert!(approx_eq(fbits(a.cross(bb).dot(a)), 0.0, PRECISION)); // Orthogonality
    assert!(approx_eq(fbits(a.cross(bb).dot(bb)), 0.0, PRECISION)); // Orthogonality
}

#[test]
fn test_numerical_stability() {
    // Test operations near epsilon boundaries
    let near_epsilon = Vec3::new(EPSILON, EPSILON, EPSILON);
    let normalized = near_epsilon.normalize();

    // Should handle near-zero vectors gracefully
    assert!(normalized == Vec3::zero() || normalized.is_normalized());

    // Test large vectors (kept small enough that the squared length stays
    // finite)
    let large = v3(1e10, 1e10, 1e10);
    let large_normalized = large.normalize();
    assert!(approx_eq(fbits(large_normalized.length()), 1.0, PRECISION));

    // Test vectors with vastly different component magnitudes
    let unbalanced = v3(1e10, 1e-10, 1.0);
    let unbalanced_normalized = unbalanced.normalize();
    assert!(approx_eq(
        fbits(unbalanced_normalized.length()),
        1.0,
        PRECISION
    ));
}
