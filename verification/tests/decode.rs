use ocamlrep::error::FromError;
use ocamlrep::from::expect_block;
use ocamlrep::from::expect_block_size;
use ocamlrep::from::expect_block_tag;
use ocamlrep::from::expect_block_with_size_and_tag;
use ocamlrep::from::expect_int;
use ocamlrep::from::expect_nullary_variant;
use ocamlrep::from::expect_tuple;
use ocamlrep::from::field;
use ocamlrep::from::field_in;
use ocamlrep::from::FromOcamlRep;
use ocamlrep::impls::Pair;
use ocamlrep::value::Block;
use ocamlrep::value::Value;

fn imm(n: isize) -> Value {
    Value::Immediate(n)
}

fn block(tag: u8, fields: Vec<Value>) -> Value {
    Value::Block(Block::new(tag, fields))
}

#[test]
fn expect_int_returns_the_immediate() {
    assert_eq!(expect_int(&imm(5)), Ok(5));
    assert_eq!(expect_int(&imm(0)), Ok(0));
    assert_eq!(expect_int(&imm(-3)), Ok(-3));
    assert_eq!(expect_int(&imm(isize::MAX)), Ok(isize::MAX));
    assert_eq!(expect_int(&imm(isize::MIN)), Ok(isize::MIN));
}

#[test]
fn expect_int_rejects_a_block_with_its_bits() {
    let v = block(0, vec![imm(1)]);
    assert_eq!(expect_int(&v), Err(FromError::ExpectedImmediate(v.to_bits())));
}

#[test]
fn to_bits_tags_immediates_as_odd_words() {
    assert_eq!(imm(0).to_bits(), 1);
    assert_eq!(imm(3).to_bits(), 7);
    assert_eq!(imm(-1).to_bits(), usize::MAX);
    assert_eq!(block(0, vec![]).to_bits(), 0);
}

#[test]
fn as_int_and_as_block_are_mutually_exclusive() {
    let i = imm(9);
    assert_eq!(i.as_int(), Some(9));
    assert!(i.as_block().is_none());
    let b = block(1, vec![imm(2)]);
    assert_eq!(b.as_int(), None);
    let view = b.as_block().unwrap();
    assert_eq!(view.tag(), 1);
    assert_eq!(view.size(), 1);
    assert_eq!(view.get(0), &imm(2));
}

#[test]
fn nullary_variant_in_range_is_returned() {
    assert_eq!(expect_nullary_variant(&imm(0), 0), Ok(0));
    assert_eq!(expect_nullary_variant(&imm(0), 3), Ok(0));
    assert_eq!(expect_nullary_variant(&imm(2), 3), Ok(2));
    assert_eq!(expect_nullary_variant(&imm(3), 3), Ok(3));
}

#[test]
fn nullary_variant_out_of_range_is_rejected() {
    assert_eq!(
        expect_nullary_variant(&imm(4), 3),
        Err(FromError::NullaryVariantTagOutOfRange { max: 3, actual: 4 })
    );
    assert_eq!(
        expect_nullary_variant(&imm(-1), 3),
        Err(FromError::NullaryVariantTagOutOfRange { max: 3, actual: -1 })
    );
    assert_eq!(
        expect_nullary_variant(&imm(1), 0),
        Err(FromError::NullaryVariantTagOutOfRange { max: 0, actual: 1 })
    );
}

#[test]
fn nullary_variant_on_a_block_reports_expected_immediate() {
    let v = block(0, vec![]);
    assert_eq!(
        expect_nullary_variant(&v, 3),
        Err(FromError::ExpectedImmediate(v.to_bits()))
    );
}

#[test]
fn expect_block_returns_the_block_view() {
    let v = block(3, vec![imm(1), imm(2)]);
    let b = expect_block(&v).unwrap();
    assert_eq!(b.tag(), 3);
    assert_eq!(b.size(), 2);
    assert_eq!(b.get(0), &imm(1));
    assert_eq!(b.get(1), &imm(2));
}

#[test]
fn expect_block_rejects_an_immediate_with_its_value() {
    assert_eq!(expect_block(&imm(7)), Err(FromError::ExpectedBlock(7)));
    assert_eq!(expect_block(&imm(-7)), Err(FromError::ExpectedBlock(-7)));
}

#[test]
fn expect_block_size_checks_the_field_count() {
    let b = Block::new(0, vec![imm(1), imm(2)]);
    assert_eq!(expect_block_size(&b, 2), Ok(()));
    assert_eq!(
        expect_block_size(&b, 5),
        Err(FromError::WrongBlockSize { expected: 5, actual: 2 })
    );
}

#[test]
fn expect_block_tag_checks_the_tag() {
    let b = Block::new(4, vec![]);
    assert_eq!(expect_block_tag(&b, 4), Ok(()));
    assert_eq!(
        expect_block_tag(&b, 1),
        Err(FromError::ExpectedBlockTag { expected: 1, actual: 4 })
    );
}

#[test]
fn size_and_tag_validator_accepts_a_matching_block() {
    let v = block(2, vec![imm(1)]);
    let b = expect_block_with_size_and_tag(&v, 1, 2).unwrap();
    assert_eq!(b.tag(), 2);
    assert_eq!(b.size(), 1);
}

#[test]
fn size_is_checked_strictly_before_tag() {
    // Both the size and the tag mismatch: the size error wins.
    let v = block(2, vec![imm(1)]);
    assert_eq!(
        expect_block_with_size_and_tag(&v, 3, 5),
        Err(FromError::WrongBlockSize { expected: 3, actual: 1 })
    );
}

#[test]
fn wrong_tag_with_matching_size_is_reported() {
    let v = block(2, vec![imm(1)]);
    assert_eq!(
        expect_block_with_size_and_tag(&v, 1, 5),
        Err(FromError::ExpectedBlockTag { expected: 5, actual: 2 })
    );
}

#[test]
fn size_and_tag_validator_rejects_an_immediate() {
    assert_eq!(
        expect_block_with_size_and_tag(&imm(4), 1, 0),
        Err(FromError::ExpectedBlock(4))
    );
}

#[test]
fn expect_tuple_accepts_a_zero_tagged_block() {
    let v = block(0, vec![imm(5), imm(7)]);
    let b = expect_tuple(&v, 2).unwrap();
    assert_eq!(b.size(), 2);
    assert_eq!(b.tag(), 0);
}

#[test]
fn expect_tuple_accepts_the_empty_tuple() {
    let v = block(0, vec![]);
    assert_eq!(expect_tuple(&v, 0).unwrap().size(), 0);
}

#[test]
fn expect_tuple_reports_wrong_size_first() {
    let v = block(0, vec![imm(5), imm(7)]);
    assert_eq!(
        expect_tuple(&v, 3),
        Err(FromError::WrongBlockSize { expected: 3, actual: 2 })
    );
    // Even with a nonzero tag, a wrong size is still reported first.
    let w = block(2, vec![imm(1)]);
    assert_eq!(
        expect_tuple(&w, 5),
        Err(FromError::WrongBlockSize { expected: 5, actual: 1 })
    );
}

#[test]
fn expect_tuple_reports_a_nonzero_tag_specifically() {
    let v = block(2, vec![imm(1)]);
    assert_eq!(expect_tuple(&v, 1), Err(FromError::ExpectedZeroTag(2)));
}

#[test]
fn field_decodes_in_place() {
    let b = Block::new(0, vec![imm(7), imm(9)]);
    assert_eq!(field::<isize>(&b, 0), Ok(7));
    assert_eq!(field::<isize>(&b, 1), Ok(9));
}

#[test]
fn field_wraps_a_failure_with_its_position() {
    let inner = block(0, vec![]);
    let raw = inner.to_bits();
    let b = Block::new(0, vec![imm(7), inner]);
    assert_eq!(
        field::<isize>(&b, 1),
        Err(FromError::ErrorInField(
            1,
            Box::new(FromError::ExpectedImmediate(raw))
        ))
    );
}

#[test]
fn pair_decodes_a_two_field_block() {
    let v = block(0, vec![imm(5), imm(7)]);
    assert_eq!(
        Pair::<isize, isize>::from_ocamlrep(&v),
        Ok(Pair { fst: 5, snd: 7 })
    );
}

#[test]
fn pair_rejects_an_immediate() {
    assert_eq!(
        Pair::<isize, isize>::from_ocamlrep(&imm(3)),
        Err(FromError::ExpectedBlock(3))
    );
}

#[test]
fn pair_rejects_a_wrong_size() {
    let v = block(0, vec![imm(5), imm(7)]);
    // A target expecting three fields refuses this two-field block.
    assert_eq!(
        Pair::<isize, Pair<isize, isize>>::from_ocamlrep(&v),
        Err(FromError::ErrorInField(
            1,
            Box::new(FromError::ExpectedBlock(7))
        ))
    );
    assert_eq!(
        expect_tuple(&v, 3),
        Err(FromError::WrongBlockSize { expected: 3, actual: 2 })
    );
}

#[test]
fn nested_pair_decodes_recursively() {
    let v = block(0, vec![block(0, vec![imm(1), imm(2)]), imm(3)]);
    assert_eq!(
        Pair::<Pair<isize, isize>, isize>::from_ocamlrep(&v),
        Ok(Pair {
            fst: Pair { fst: 1, snd: 2 },
            snd: 3
        })
    );
}

#[test]
fn nested_failure_carries_the_field_path() {
    let bad = block(1, vec![]);
    let raw = bad.to_bits();
    let v = block(0, vec![block(0, vec![bad, imm(2)]), imm(3)]);
    assert_eq!(
        Pair::<Pair<isize, isize>, isize>::from_ocamlrep(&v),
        Err(FromError::ErrorInField(
            0,
            Box::new(FromError::ErrorInField(
                0,
                Box::new(FromError::ExpectedImmediate(raw))
            ))
        ))
    );
}

#[test]
fn bool_decodes_from_the_two_immediates() {
    assert_eq!(bool::from_ocamlrep(&imm(0)), Ok(false));
    assert_eq!(bool::from_ocamlrep(&imm(1)), Ok(true));
    assert_eq!(
        bool::from_ocamlrep(&imm(2)),
        Err(FromError::NullaryVariantTagOutOfRange { max: 1, actual: 2 })
    );
    let v = block(0, vec![]);
    assert_eq!(
        bool::from_ocamlrep(&v),
        Err(FromError::ExpectedImmediate(v.to_bits()))
    );
}

#[test]
fn field_in_threads_the_arena_through() {
    let bump = bumpalo::Bump::new();
    let b = Block::new(0, vec![imm(42)]);
    assert_eq!(field_in::<isize>(&b, 0, &bump), Ok(42));
}

#[test]
fn field_in_places_decoded_data_in_the_arena() {
    let bump = bumpalo::Bump::new();
    let b = Block::new(0, vec![imm(42), imm(-5)]);
    let first: &isize = field_in::<&isize>(&b, 0, &bump).unwrap();
    let second: &isize = field_in::<&isize>(&b, 1, &bump).unwrap();
    assert_eq!(*first, 42);
    assert_eq!(*second, -5);
}

#[test]
fn field_in_wraps_a_failure_with_its_position() {
    let bump = bumpalo::Bump::new();
    let inner = block(0, vec![]);
    let raw = inner.to_bits();
    let b = Block::new(0, vec![inner]);
    assert_eq!(
        field_in::<&isize>(&b, 0, &bump),
        Err(FromError::ErrorInField(
            0,
            Box::new(FromError::ExpectedImmediate(raw))
        ))
    );
}
