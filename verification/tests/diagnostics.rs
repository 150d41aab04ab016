use builder::error::ExpandError;
use builder::metadata::MetadataError;

fn named(s: &str) -> String {
    s.to_string()
}

#[test]
fn metadata_rejections_say_what_was_wrong() {
    assert_eq!(MetadataError::NotAList.describe(), "expected `builder(each = \"...\")`");
    assert_eq!(
        MetadataError::Malformed.describe(),
        "the `builder` attribute is no list of `key = \"value\"` pairs"
    );
    assert_eq!(MetadataError::Empty.describe(), "the `builder` attribute is empty");
    assert_eq!(
        MetadataError::UnknownKey(named("eac")).describe(),
        "unsupported key `eac`, expected `each`"
    );
    assert_eq!(
        MetadataError::NonStringValue.describe(),
        "the value of `each` must be a string literal"
    );
    assert_eq!(
        MetadataError::NotAnIdentifier(named("my-arg")).describe(),
        "`my-arg` is no identifier"
    );
    assert_eq!(MetadataError::MissingValue(named("each")).describe(), "`each` has no value");
    assert_eq!(MetadataError::NestedList(named("each")).describe(), "`each` must not be a list");
    assert_eq!(
        MetadataError::BareLiteral.describe(),
        "expected `each = \"...\"`, found a literal"
    );
}

#[test]
fn expansion_failures_name_the_field() {
    assert_eq!(
        ExpandError::UnsupportedShape.describe(),
        "a builder can only be derived for a struct with named fields"
    );
    assert_eq!(
        ExpandError::InvalidMetadata {
            field: named("args"),
            reason: MetadataError::UnknownKey(named("eac"))
        }
        .describe(),
        "field `args`: unsupported key `eac`, expected `each`"
    );
    assert_eq!(
        ExpandError::InternalInvariantViolation { field: named("steps") }.describe(),
        "field `steps`: the declared type must be a generic type with a single type argument"
    );
}
