use vstd::prelude::*;

use crate::ingest::{decode_lossy, utf8_lossy};

verus! {

/// The decimal digit `d`.
pub open spec fn digit_char(d: nat) -> char {
    if d == 0 {
        '0'
    } else if d == 1 {
        '1'
    } else if d == 2 {
        '2'
    } else if d == 3 {
        '3'
    } else if d == 4 {
        '4'
    } else if d == 5 {
        '5'
    } else if d == 6 {
        '6'
    } else if d == 7 {
        '7'
    } else if d == 8 {
        '8'
    } else {
        '9'
    }
}

/// The decimal digits of `n`, most significant first, without leading zeros.
pub open spec fn decimal(n: nat) -> Seq<char>
    decreases n,
{
    if n < 10 {
        seq![digit_char(n)]
    } else {
        decimal(n / 10) + seq![digit_char(n % 10)]
    }
}

fn digit_text(d: u16) -> (r: &'static str)
    requires
        d < 10,
    ensures
        r@ == seq![digit_char(d as nat)],
{
    if d == 0 {
        proof {
            reveal_strlit("0");
        }
        assert("0"@ =~= seq!['0']);
        "0"
    } else if d == 1 {
        proof {
            reveal_strlit("1");
        }
        assert("1"@ =~= seq!['1']);
        "1"
    } else if d == 2 {
        proof {
            reveal_strlit("2");
        }
        assert("2"@ =~= seq!['2']);
        "2"
    } else if d == 3 {
        proof {
            reveal_strlit("3");
        }
        assert("3"@ =~= seq!['3']);
        "3"
    } else if d == 4 {
        proof {
            reveal_strlit("4");
        }
        assert("4"@ =~= seq!['4']);
        "4"
    } else if d == 5 {
        proof {
            reveal_strlit("5");
        }
        assert("5"@ =~= seq!['5']);
        "5"
    } else if d == 6 {
        proof {
            reveal_strlit("6");
        }
        assert("6"@ =~= seq!['6']);
        "6"
    } else if d == 7 {
        proof {
            reveal_strlit("7");
        }
        assert("7"@ =~= seq!['7']);
        "7"
    } else if d == 8 {
        proof {
            reveal_strlit("8");
        }
        assert("8"@ =~= seq!['8']);
        "8"
    } else {
        proof {
            reveal_strlit("9");
        }
        assert("9"@ =~= seq!['9']);
        "9"
    }
}

/// Renders `n` in decimal.
pub fn decimal_text(n: u16) -> (r: String)
    ensures
        r@ == decimal(n as nat),
    decreases n,
{
    if n < 10 {
        String::from_str(digit_text(n))
    } else {
        let mut text = decimal_text(n / 10);
        text.append(digit_text(n % 10));
        text
    }
}

/// The status 500 reads as the three characters "500".
pub proof fn lemma_decimal_500()
    ensures
        decimal(500) == seq!['5', '0', '0'],
{
    reveal_with_fuel(decimal, 3);
    assert(decimal(500) =~= seq!['5', '0', '0']);
}

/// Why an upload request was turned down.
pub enum UploadError {
    /// The multipart body could not be decoded; holds the decoder's diagnostic.
    Malformed { detail: String },
    /// No file field carried a file name.
    MissingFileName,
    /// No file field delivered a payload.
    MissingFileData,
    /// No owner identifier was received.
    MissingOwner,
    /// The storage backend could not be reached; holds the transport's diagnostic.
    UpstreamUnavailable { detail: String },
    /// The storage backend answered with a non-success status and this body.
    UpstreamRejected { status: u16, body: Vec<u8> },
    /// The storage backend answered with success but no usable content id.
    UpstreamMalformed,
}

impl UploadError {
    /// Rejections of the request itself answer 400, failures of the storage backend 500.
    pub open spec fn spec_status_code(&self) -> u16 {
        match self {
            UploadError::Malformed { .. } => 400,
            UploadError::MissingFileName => 400,
            UploadError::MissingFileData => 400,
            UploadError::MissingOwner => 400,
            UploadError::UpstreamUnavailable { .. } => 500,
            UploadError::UpstreamRejected { .. } => 500,
            UploadError::UpstreamMalformed => 500,
        }
    }

    /// The human-readable message that the caller receives.
    pub open spec fn spec_message(&self) -> Seq<char> {
        match self {
            UploadError::Malformed { detail } => "Error parsing field: "@ + detail@,
            UploadError::MissingFileName => "File name is missing."@,
            UploadError::MissingFileData => "File data is missing."@,
            UploadError::MissingOwner => "Target wallet address is required."@,
            UploadError::UpstreamUnavailable { detail } => "Failed to upload to IPFS: "@ + detail@,
            UploadError::UpstreamRejected { status, body } => "IPFS upload failed with status: "@
                + decimal(*status as nat) + ", body: "@ + utf8_lossy(body@),
            UploadError::UpstreamMalformed => "Failed to get CID from IPFS response."@,
        }
    }

    pub fn status_code(&self) -> (r: u16)
        ensures
            r == self.spec_status_code(),
    {
        match self {
            UploadError::Malformed { .. } => 400,
            UploadError::MissingFileName => 400,
            UploadError::MissingFileData => 400,
            UploadError::MissingOwner => 400,
            UploadError::UpstreamUnavailable { .. } => 500,
            UploadError::UpstreamRejected { .. } => 500,
            UploadError::UpstreamMalformed => 500,
        }
    }

    pub fn message(&self) -> (r: String)
        ensures
            r@ == self.spec_message(),
    {
        match self {
            UploadError::Malformed { detail } => {
                String::from_str("Error parsing field: ").concat(detail.as_str())
            },
            UploadError::MissingFileName => String::from_str("File name is missing."),
            UploadError::MissingFileData => String::from_str("File data is missing."),
            UploadError::MissingOwner => String::from_str("Target wallet address is required."),
            UploadError::UpstreamUnavailable { detail } => {
                String::from_str("Failed to upload to IPFS: ").concat(detail.as_str())
            },
            UploadError::UpstreamRejected { status, body } => {
                let mut text = String::from_str("IPFS upload failed with status: ");
                let digits = decimal_text(*status);
                text.append(digits.as_str());
                text.append(", body: ");
                let body_text = decode_lossy(body.as_slice());
                text.append(body_text.as_str());
                text
            },
            UploadError::UpstreamMalformed => String::from_str(
                "Failed to get CID from IPFS response.",
            ),
        }
    }
}

/// A turned-down upload, with the file name echoed back when it was already known.
pub struct Rejection {
    pub error: UploadError,
    pub file_name: Option<String>,
}

} // verus!
