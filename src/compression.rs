//! The codecs that a file body may travel in, and which one each side uses.

use vstd::prelude::*;
use crate::text::text_eq;

verus! {

/// A codec for the file body.
#[derive(Debug, Clone, Copy, PartialEq, Eq, Structural)]
pub enum CompressionAlgo {
    Zstd,
    Gzip,
    Zlib,
    Raw,
}

/// The name of a codec on the wire.
pub open spec fn algo_name(a: CompressionAlgo) -> Seq<char> {
    match a {
        CompressionAlgo::Zstd => "zstd"@,
        CompressionAlgo::Gzip => "gzip"@,
        CompressionAlgo::Zlib => "zlib"@,
        CompressionAlgo::Raw => "none"@,
    }
}

/// The codec with wire name `s`, if any.
pub open spec fn algo_of_name(s: Seq<char>) -> Option<CompressionAlgo> {
    if s == "zstd"@ {
        Some(CompressionAlgo::Zstd)
    } else if s == "gzip"@ {
        Some(CompressionAlgo::Gzip)
    } else if s == "zlib"@ {
        Some(CompressionAlgo::Zlib)
    } else if s == "none"@ {
        Some(CompressionAlgo::Raw)
    } else {
        None
    }
}

impl CompressionAlgo {
    /// The wire name of this codec.
    pub fn as_str(&self) -> (r: &'static str)
        ensures
            r@ == algo_name(*self),
    {
        match self {
            CompressionAlgo::Zstd => "zstd",
            CompressionAlgo::Gzip => "gzip",
            CompressionAlgo::Zlib => "zlib",
            CompressionAlgo::Raw => "none",
        }
    }

    /// The codec with wire name `s`; `None` for a name that no codec has.
    pub fn from_str(s: &str) -> (r: Option<Self>)
        ensures
            r == algo_of_name(s@),
    {
        if text_eq(s, "zstd") {
            Some(CompressionAlgo::Zstd)
        } else if text_eq(s, "gzip") {
            Some(CompressionAlgo::Gzip)
        } else if text_eq(s, "zlib") {
            Some(CompressionAlgo::Zlib)
        } else if text_eq(s, "none") {
            Some(CompressionAlgo::Raw)
        } else {
            None
        }
    }
}

/// Every codec's wire name reads back as that codec.
pub proof fn lemma_algo_name_round_trip(a: CompressionAlgo)
    ensures
        algo_of_name(algo_name(a)) == Some(a),
{
    reveal_strlit("zstd");
    reveal_strlit("gzip");
    reveal_strlit("zlib");
    reveal_strlit("none");
    assert("gzip"@[0] != "zstd"@[0]);
    assert("zlib"@[1] != "zstd"@[1]);
    assert("none"@[0] != "zstd"@[0]);
    assert("zlib"@[0] != "gzip"@[0]);
    assert("none"@[0] != "gzip"@[0]);
    assert("none"@[0] != "zlib"@[0]);
}

/// The codec a sender uses towards a target OS: none for iOS, else zstd.
pub open spec fn sender_algo(target_os: Option<Seq<char>>) -> CompressionAlgo {
    if target_os == Some("ios"@) {
        CompressionAlgo::Raw
    } else {
        CompressionAlgo::Zstd
    }
}

/// The codec a sender uses towards a target OS: none for iOS, else zstd.
pub fn choose_sender_algo(target_os: Option<&str>) -> (r: CompressionAlgo)
    ensures
        r == sender_algo(
            match target_os {
                Some(t) => Some(t@),
                None => None,
            },
        ),
{
    match target_os {
        Some(t) => if text_eq(t, "ios") {
            CompressionAlgo::Raw
        } else {
            CompressionAlgo::Zstd
        },
        None => CompressionAlgo::Zstd,
    }
}

/// The codec a receiver decodes with: the one the header names, or zstd
/// when the header names none or one that is unknown.
pub open spec fn receiver_algo(compression: Option<Seq<char>>) -> CompressionAlgo {
    match compression {
        Some(c) => match algo_of_name(c) {
            Some(a) => a,
            None => CompressionAlgo::Zstd,
        },
        None => CompressionAlgo::Zstd,
    }
}

/// The codec a receiver decodes with: the one the header names, or zstd
/// when the header names none or one that is unknown.
pub fn choose_receiver_algo(compression: &Option<String>) -> (r: CompressionAlgo)
    ensures
        r == receiver_algo(
            match compression {
                Some(c) => Some(c@),
                None => None,
            },
        ),
{
    match compression {
        Some(c) => match CompressionAlgo::from_str(c.as_str()) {
            Some(a) => a,
            None => CompressionAlgo::Zstd,
        },
        None => CompressionAlgo::Zstd,
    }
}

} // verus!
