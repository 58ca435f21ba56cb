use raytracer::perlin::{perlin_generate_perm, permute, permute_with, PermTables, POINT_COUNT};

fn is_permutation(p: &[i32; POINT_COUNT]) -> bool {
    let mut seen = [false; POINT_COUNT];
    for &v in p.iter() {
        if v < 0 || v as usize >= POINT_COUNT || seen[v as usize] {
            return false;
        }
        seen[v as usize] = true;
    }
    true
}

#[test]
fn generated_table_is_a_permutation() {
    for _ in 0..20 {
        assert!(is_permutation(&perlin_generate_perm()));
    }
}

#[test]
fn generated_tables_differ() {
    let a = perlin_generate_perm();
    let b = perlin_generate_perm();
    let c = perlin_generate_perm();
    assert!(a != b || b != c);
}

#[test]
fn permute_keeps_entries_and_tail() {
    let mut p = [0i32; POINT_COUNT];
    for (i, v) in p.iter_mut().enumerate() {
        *v = (i as i32) * 3 - 100;
    }
    let before = p;
    permute(&mut p, 10);
    for k in 10..POINT_COUNT {
        assert_eq!(p[k], before[k]);
    }
    let mut head: Vec<i32> = p[..10].to_vec();
    let mut orig: Vec<i32> = before[..10].to_vec();
    head.sort();
    orig.sort();
    assert_eq!(head, orig);
}

#[test]
fn permute_of_zero_or_one_changes_nothing() {
    let mut p = [5i32; POINT_COUNT];
    p[0] = 1;
    let before = p;
    permute(&mut p, 0);
    assert_eq!(p, before);
    permute(&mut p, 1);
    assert_eq!(p, before);
}

#[test]
fn lattice_index_combines_tables() {
    let t = PermTables::new();
    for &(i, j, k) in &[(0, 0, 0), (1, 2, 3), (255, 256, 257), (-1, -256, 1000), (i32::MIN, i32::MAX, 7)] {
        let r = t.lattice_index(i, j, k);
        let expect = t.perm_x[(i & 255) as usize] ^ t.perm_y[(j & 255) as usize] ^ t.perm_z[(k & 255) as usize];
        assert_eq!(r, expect as usize);
        assert!(r < POINT_COUNT);
    }
}

#[test]
fn lattice_index_wraps_every_256() {
    let t = PermTables::new();
    assert_eq!(t.lattice_index(3, 4, 5), t.lattice_index(3 + 256, 4 - 512, 5 + 1024));
    assert_eq!(t.lattice_index(-1, 0, 0), t.lattice_index(255, 0, 0));
}

#[test]
fn fresh_tables_are_permutations() {
    let t = PermTables::new();
    assert!(is_permutation(&t.perm_x));
    assert!(is_permutation(&t.perm_y));
    assert!(is_permutation(&t.perm_z));
}

#[test]
fn permute_with_follows_the_targets() {
    let mut p = [0i32; POINT_COUNT];
    for (i, v) in p.iter_mut().enumerate() {
        *v = i as i32;
    }
    // position 3 swaps with 0, then 2 with 2, then 1 with 0
    permute_with(&mut p, 4, &vec![0, 0, 2, 0]);
    assert_eq!(&p[..5], &[1, 3, 2, 0, 4]);
}

#[test]
fn permute_with_identity_targets_keeps_order() {
    let mut p = [0i32; POINT_COUNT];
    for (i, v) in p.iter_mut().enumerate() {
        *v = 255 - i as i32;
    }
    let before = p;
    let targets: Vec<usize> = (0..POINT_COUNT).collect();
    permute_with(&mut p, POINT_COUNT, &targets);
    assert_eq!(p, before);
}
