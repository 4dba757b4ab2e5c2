use crate::text::same_text;
use vstd::prelude::*;

verus! {

/// Compression scheme for records in a Firehose message.
#[derive(Clone, Copy, Debug, PartialEq, Eq, Structural)]
pub enum Compression {
    /// Determine the scheme from the file signature of each record.
    ///
    /// The signature is no perfect check: a record that carries it and still fails to decompress
    /// is forwarded as it came. Where every record is known to be compressed, `Gzip` is the better
    /// choice, because it refuses the records that are not.
    Auto,
    /// Uncompressed.
    Uncompressed,
    /// GZIP.
    Gzip,
}

impl Compression {
    /// The scheme's name, as it is shown and as it stands in a configuration.
    pub open spec fn name(self) -> Seq<char> {
        match self {
            Compression::Auto => "auto"@,
            Compression::Uncompressed => "none"@,
            Compression::Gzip => "gzip"@,
        }
    }

    /// The name of the scheme.
    pub fn to_string(&self) -> (text: String)
        ensures
            text@ == self.name(),
            *self == Compression::Auto ==> text@ == "auto"@,
            *self == Compression::Uncompressed ==> text@ == "none"@,
            *self == Compression::Gzip ==> text@ == "gzip"@,
    {
        match self {
            Compression::Auto => "auto".to_owned(),
            Compression::Uncompressed => "none".to_owned(),
            Compression::Gzip => "gzip".to_owned(),
        }
    }

    /// The scheme that carries `name`. Names are lower case; any other text names no scheme.
    pub fn from_name(name: &str) -> (found: Option<Compression>)
        ensures
            found matches Some(scheme) ==> scheme.name() == name@,
            forall|scheme: Compression|
                #[trigger] scheme.name() == name@ <==> found == Some(scheme),
            name@ == "auto"@ <==> found == Some(Compression::Auto),
            name@ == "none"@ <==> found == Some(Compression::Uncompressed),
            name@ == "gzip"@ <==> found == Some(Compression::Gzip),
    {
        proof {
            assert forall|left: Compression, right: Compression| #[trigger]
                left.name() == #[trigger] right.name() implies left == right by {
                law_names_tell_schemes_apart(left, right);
            }
        }
        assert(Compression::Auto.name() == "auto"@);
        assert(Compression::Uncompressed.name() == "none"@);
        assert(Compression::Gzip.name() == "gzip"@);
        if same_text(name, "auto") {
            Some(Compression::Auto)
        } else if same_text(name, "none") {
            Some(Compression::Uncompressed)
        } else if same_text(name, "gzip") {
            Some(Compression::Gzip)
        } else {
            None
        }
    }
}

impl Default for Compression {
    /// The scheme of a configuration that names none.
    fn default() -> (scheme: Self)
        ensures
            scheme == Compression::Auto,
    {
        Compression::Auto
    }
}

/// No two schemes share a name, so `from_name` undoes `to_string`.
pub proof fn law_names_tell_schemes_apart(left: Compression, right: Compression)
    ensures
        left.name() == right.name() <==> left == right,
{
    reveal_strlit("auto");
    reveal_strlit("none");
    reveal_strlit("gzip");
    assert("auto"@[0] != "none"@[0]);
    assert("auto"@[0] != "gzip"@[0]);
    assert("none"@[0] != "gzip"@[0]);
}

/// The names themselves: a scheme is called `auto`, `none` or `gzip`, and nothing else.
pub proof fn law_scheme_names(scheme: Compression)
    ensures
        scheme == Compression::Auto <==> scheme.name() == "auto"@,
        scheme == Compression::Uncompressed <==> scheme.name() == "none"@,
        scheme == Compression::Gzip <==> scheme.name() == "gzip"@,
{
    law_names_tell_schemes_apart(scheme, Compression::Auto);
    law_names_tell_schemes_apart(scheme, Compression::Uncompressed);
    law_names_tell_schemes_apart(scheme, Compression::Gzip);
}


} // verus!
