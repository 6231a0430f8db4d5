use cow_vec_item::CowVec;

#[test]
fn test_iter_nth() {
    let mut v = Vec::new();
    v.push(32i32);
    v.push(33i32);

    let mut i = v.iter();
    i.next().unwrap();

    assert_eq!(*i.nth(0).unwrap(), 33);
    assert_eq!(i.nth(1), None);
}

#[test]
fn test_iter_nth2() {
    let mut v = Vec::new();
    v.push(32i32);
    v.push(33i32);
    v.push(34i32);
    v.push(35i32);

    let mut cowvec = CowVec::from(&v);

    let mut i = cowvec.iter_mut();
    let v0 = i.nth(&mut cowvec, 0).unwrap();
    assert_eq!(v0.read(&cowvec), 32);
    v0.release(&mut cowvec);
    let v2 = i.nth(&mut cowvec, 1).unwrap();
    assert_eq!(v2.read(&cowvec), 34);
    v2.release(&mut cowvec);
    let v3 = i.nth(&mut cowvec, 0).unwrap();
    assert_eq!(v3.read(&cowvec), 35);
    v3.release(&mut cowvec);
    let v4 = i.nth(&mut cowvec, 1);
    assert!(v4.is_none());
}

#[test]
fn test_iter_count_and_size_hint() {
    let mut v = Vec::new();
    v.push(32i32);
    v.push(33i32);
    let mut temp = CowVec::from(&v);
    assert_eq!(temp.iter_mut().count(), 2);
    let mut it = temp.iter_mut();
    let w = it.next(&mut temp).unwrap();
    w.release(&mut temp);
    assert_eq!(it.size_hint().0, 1);
    assert_eq!(it.size_hint().1, Some(1));
    assert_eq!(it.count(), 1);
    let mut it = temp.iter_mut();
    let w = it.next(&mut temp).unwrap();
    w.release(&mut temp);
    let w = it.next(&mut temp).unwrap();
    w.release(&mut temp);
    assert_eq!(it.count(), 0);
}

#[test]
fn test_mut_twice() {
    let mut v = Vec::new();
    v.push(32i32);
    v.push(33i32);
    let mut temp = CowVec::from(&v);
    let mut iter = temp.iter_mut();

    {
        let mut t1 = iter.next(&mut temp).unwrap();
        t1.write(&mut temp, 1);
        t1.release(&mut temp);
    }
    {
        let mut t2 = iter.next(&mut temp).unwrap();
        t2.write(&mut temp, 2);
        t2.release(&mut temp);
    }
}

#[test]
fn test_cornercase1() {
    let mut v = Vec::new();
    v.push(32i32);
    v.push(33i32);
    let mut temp = CowVec::from(&v);

    {
        {
            let mut iter_a = temp.iter_mut();
            let mut wrapper = iter_a.next(&mut temp).unwrap();
            wrapper.write(&mut temp, 73);
            wrapper.release(&mut temp);
        }
        let mut iter_b = temp.iter_mut();
        let first = iter_b.next(&mut temp).unwrap();
        first.release(&mut temp);
    }
}

#[test]
fn test_cornercase2() {
    let mut v = Vec::new();
    v.push(32i32);
    v.push(33i32);
    let mut temp = CowVec::from(&v);

    {
        let mut iter_a;
        {
            iter_a = temp.iter_mut();
            let mut wrapper = iter_a.next(&mut temp).unwrap();
            wrapper.write(&mut temp, 73);
            wrapper.release(&mut temp);
        }
        let _x = iter_a;
    }
}

#[test]
fn test_cornercase3() {
    let mut v = Vec::new();
    {
        let mut temp;
        v.push(32i32);
        v.push(33i32);
        temp = CowVec::from(&v);
        let mut it = temp.iter_mut();
        let _val = it.next(&mut temp).unwrap();
    }
    v.push(32);
}

#[test]
fn test_zero_size_iter_mut() {
    let mut v = Vec::new();
    v.push(());
    v.push(());

    let mut temp = CowVec::from(&v);

    let mut iter = temp.iter_mut();
    let w = iter.next(&mut temp).unwrap();
    assert_eq!(w.read(&temp), ());
    w.release(&mut temp);
    let w = iter.next(&mut temp).unwrap();
    assert_eq!(w.read(&temp), ());
    w.release(&mut temp);
    assert!(iter.next(&mut temp).is_none());
}

#[test]
fn test_eager_cloned_iter_mut() {
    let mut temp = CowVec::from_owned(vec![1, 2, 3]);
    let mut it = temp.eager_cloned_iter_mut();
    let mut output = Vec::new();
    loop {
        match it.next(&mut temp) {
            Some(w) => {
                output.push(w.read(&temp));
                w.release(&mut temp);
            }
            None => break,
        }
    }
    assert_eq!(output[0], 1);
    assert_eq!(output[1], 2);
    assert_eq!(output[2], 3);
}

#[test]
fn test_eager_cloned_iter_mut_borrowed() {
    let v = vec![8i32, 9];
    let mut temp = CowVec::from(&v);
    let mut it = temp.eager_cloned_iter_mut();
    assert!(temp.is_owned());
    let mut w = it.next(&mut temp).unwrap();
    w.write(&mut temp, 80);
    w.release(&mut temp);
    assert_eq!(temp.to_owned(), vec![80, 9]);
    assert_eq!(v, vec![8, 9]);
}

#[test]
fn test_nth_wrapper_write() {
    let v = vec![32i32, 33, 34, 35];
    let mut temp = CowVec::from(&v);
    let mut it = temp.iter_mut();
    let mut w = it.nth(&mut temp, 2).unwrap();
    assert_eq!(w.read(&temp), 34);
    w.write(&mut temp, 44);
    w.release(&mut temp);
    assert!(temp.is_owned());
    assert_eq!(temp.to_owned(), vec![32, 33, 44, 35]);
    assert_eq!(v, vec![32, 33, 34, 35]);
}

#[test]
fn test_fuzz() {
    impl_fuzz(1000);
}

#[test]
fn test_short_fuzz() {
    impl_fuzz(10);
}

fn impl_fuzz(fuzz_iterations: usize) {
    let mut seed = 317u32;
    let mut gen_u32 = || {
        let random = &mut seed;
        *random ^= *random << 13;
        *random ^= *random >> 17;
        *random ^= *random << 5;
        *random
    };

    for _ in 0..fuzz_iterations {
        let mut v = Vec::new();
        for _ in 0..gen_u32() % 10 {
            v.push(gen_u32());
        }

        let mut clone = v.clone();
        let mut temp = CowVec::from(&v);

        {
            let mut it = temp.iter_mut();
            let mut idx = 0;
            loop {
                let item = match it.next(&mut temp) {
                    Some(item) => item,
                    None => break,
                };
                let reference = &mut clone[idx];
                match gen_u32() % 5 {
                    0 => {
                        let mut item = item;
                        let val = item.read(&temp);
                        item.write(&mut temp, val + 42);
                        *reference += 42;
                        item.release(&mut temp);
                    }
                    _ => {
                        let _ = item.read(&temp);
                        item.release(&mut temp);
                    }
                }
                idx += 1;
            }
            for (i, reference) in clone.iter().enumerate() {
                assert_eq!(temp.get(i), *reference);
            }
        }
    }
}
