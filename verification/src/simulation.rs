use vstd::prelude::*;

verus! {

/// The largest number of particle classes a simulation may have.
pub const MAX_PARTICLE_CLASSES: usize = 5;

/// The number of particles that one compute workgroup processes.
pub const PARTICLES_PER_WORKGROUP: u32 = 256;

/// Whether a simulation may have `c` particle classes.
pub fn valid_class_count(c: usize) -> (r: bool)
    ensures
        r == (c <= MAX_PARTICLE_CLASSES),
{
    c <= MAX_PARTICLE_CLASSES
}

/// Number of workgroups to dispatch so that every particle gets exactly one
/// compute invocation: enough workgroups to cover all particles, and no
/// workgroup that would hold none of them.
pub fn workgroup_count(particle_num: u32) -> (r: u32)
    ensures
        r as int == (particle_num as int + PARTICLES_PER_WORKGROUP as int - 1)
            / PARTICLES_PER_WORKGROUP as int,
        r as int * PARTICLES_PER_WORKGROUP as int >= particle_num as int,
        (r as int - 1) * (PARTICLES_PER_WORKGROUP as int) < particle_num as int,
{
    let q = particle_num / PARTICLES_PER_WORKGROUP;
    let r = if particle_num % PARTICLES_PER_WORKGROUP != 0 {
        q + 1
    } else {
        q
    };
    assert(r as int == (particle_num as int + 255) / 256 && r as int * 256 >= particle_num as int
        && (r as int - 1) * 256 < particle_num as int) by (nonlinear_arith)
        requires
            q as int == particle_num as int / 256,
            r as int == if particle_num as int % 256 != 0 { q + 1 } else { q as int },
            0 <= particle_num,
    ;
    r
}

/// The class (type) that a particle's flag carries, in its low three bits.
pub open spec fn flag_class(flag: u32) -> u32 {
    flag & 7
}

/// Whether a particle's flag marks it as discarded (bit three).
pub open spec fn flag_discarded(flag: u32) -> bool {
    flag & 8 != 0
}

/// The flag of a freshly created particle of the given class: the class in
/// the low three bits, not discarded.
pub fn particle_flag(class: usize) -> (flag: u32)
    requires
        class < 8,
    ensures
        flag == class,
        flag_class(flag) == class,
        !flag_discarded(flag),
{
    let flag = class as u32;
    assert(flag < 8 ==> flag & 7 == flag && flag & 8 == 0) by (bit_vector);
    flag
}

/// The interaction matrix as the compute shader's uniform buffer holds it:
/// WGSL gives uniform array elements a 16-byte stride, so entry `i` of the
/// matrix goes into the first of four 32-bit words of element `i`, and the
/// other three words are zero. Values are carried as their bit patterns.
pub fn uniform_acc_matrix(matrix: &[u32; 25]) -> (r: Vec<[u32; 4]>)
    ensures
        r@.len() == 25,
        forall|i: int|
            0 <= i < 25 ==> (#[trigger] r@[i])@ == seq![matrix@[i], 0u32, 0u32, 0u32],
{
    let mut r: Vec<[u32; 4]> = Vec::new();
    for i in 0..25
        invariant
            r@.len() == i,
            forall|j: int| 0 <= j < i ==> (#[trigger] r@[j])@ == seq![matrix@[j], 0u32, 0u32, 0u32],
    {
        let cell: [u32; 4] = [matrix[i], 0, 0, 0];
        assert(cell@ =~= seq![matrix@[i as int], 0u32, 0u32, 0u32]);
        r.push(cell);
    }
    r
}

} // verus!
