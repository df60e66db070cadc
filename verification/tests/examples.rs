use michie::protocol::memoized_call;
use michie::registry::Registry;
use michie::store::SuccessStore;

fn may_fail(
    registry: &mut Registry<SuccessStore<usize, usize, ()>>,
    input: usize,
) -> Result<usize, ()> {
    memoized_call(registry, 0, 0, SuccessStore::new, input, || {
        let remainder = input % 2;
        if remainder == 0 {
            return Err(());
        }
        Ok(remainder)
    })
}

#[test]
fn conditional_caching() {
    let mut registry = Registry::new(0);
    assert_eq!(may_fail(&mut registry, 2), Err(()));
    assert_eq!(may_fail(&mut registry, 3), Ok(1));
}
