use vstd::prelude::*;

verus! {

/// Grammatical tag of a morpheme, in the analyzer's tag set.
#[derive(Clone, Copy, Debug, PartialEq, Eq, Structural)]
pub enum Tag {
    Unk,
    Ec,
    Ef,
    Ep,
    Etm,
    Etn,
    Ic,
    Jc,
    Jkb,
    Jkc,
    Jkg,
    Jko,
    Jkq,
    Jks,
    Jkv,
    Jx,
    Mag,
    Maj,
    Mma,
    Mmd,
    Mmn,
    Na,
    Nf,
    Nnb,
    Nng,
    Nnp,
    Np,
    Nr,
    Nv,
    Se,
    Sf,
    Sh,
    Sl,
    Sn,
    So,
    Sp,
    Ss,
    Sw,
    Va,
    Vcn,
    Vcp,
    Vv,
    Vx,
    Xpn,
    Xr,
    Xsa,
    Xsn,
    Xsv,
}

impl Tag {
    /// The canonical name of the tag, as the analyzer writes it.
    pub open spec fn spec_name(self) -> Seq<char> {
        match self {
            Tag::Unk => "UNK"@,
            Tag::Ec => "EC"@,
            Tag::Ef => "EF"@,
            Tag::Ep => "EP"@,
            Tag::Etm => "ETM"@,
            Tag::Etn => "ETN"@,
            Tag::Ic => "IC"@,
            Tag::Jc => "JC"@,
            Tag::Jkb => "JKB"@,
            Tag::Jkc => "JKC"@,
            Tag::Jkg => "JKG"@,
            Tag::Jko => "JKO"@,
            Tag::Jkq => "JKQ"@,
            Tag::Jks => "JKS"@,
            Tag::Jkv => "JKV"@,
            Tag::Jx => "JX"@,
            Tag::Mag => "MAG"@,
            Tag::Maj => "MAJ"@,
            Tag::Mma => "MMA"@,
            Tag::Mmd => "MMD"@,
            Tag::Mmn => "MMN"@,
            Tag::Na => "NA"@,
            Tag::Nf => "NF"@,
            Tag::Nnb => "NNB"@,
            Tag::Nng => "NNG"@,
            Tag::Nnp => "NNP"@,
            Tag::Np => "NP"@,
            Tag::Nr => "NR"@,
            Tag::Nv => "NV"@,
            Tag::Se => "SE"@,
            Tag::Sf => "SF"@,
            Tag::Sh => "SH"@,
            Tag::Sl => "SL"@,
            Tag::Sn => "SN"@,
            Tag::So => "SO"@,
            Tag::Sp => "SP"@,
            Tag::Ss => "SS"@,
            Tag::Sw => "SW"@,
            Tag::Va => "VA"@,
            Tag::Vcn => "VCN"@,
            Tag::Vcp => "VCP"@,
            Tag::Vv => "VV"@,
            Tag::Vx => "VX"@,
            Tag::Xpn => "XPN"@,
            Tag::Xr => "XR"@,
            Tag::Xsa => "XSA"@,
            Tag::Xsn => "XSN"@,
            Tag::Xsv => "XSV"@,
        }
    }

    /// Proper, common, dependent nouns and pronouns.
    pub open spec fn is_noun(self) -> bool {
        self == Tag::Nnp || self == Tag::Nng || self == Tag::Np || self == Tag::Nnb
    }

    pub fn name(&self) -> (r: &'static str)
        ensures
            r@ == self.spec_name(),
    {
        match self {
            Tag::Unk => "UNK",
            Tag::Ec => "EC",
            Tag::Ef => "EF",
            Tag::Ep => "EP",
            Tag::Etm => "ETM",
            Tag::Etn => "ETN",
            Tag::Ic => "IC",
            Tag::Jc => "JC",
            Tag::Jkb => "JKB",
            Tag::Jkc => "JKC",
            Tag::Jkg => "JKG",
            Tag::Jko => "JKO",
            Tag::Jkq => "JKQ",
            Tag::Jks => "JKS",
            Tag::Jkv => "JKV",
            Tag::Jx => "JX",
            Tag::Mag => "MAG",
            Tag::Maj => "MAJ",
            Tag::Mma => "MMA",
            Tag::Mmd => "MMD",
            Tag::Mmn => "MMN",
            Tag::Na => "NA",
            Tag::Nf => "NF",
            Tag::Nnb => "NNB",
            Tag::Nng => "NNG",
            Tag::Nnp => "NNP",
            Tag::Np => "NP",
            Tag::Nr => "NR",
            Tag::Nv => "NV",
            Tag::Se => "SE",
            Tag::Sf => "SF",
            Tag::Sh => "SH",
            Tag::Sl => "SL",
            Tag::Sn => "SN",
            Tag::So => "SO",
            Tag::Sp => "SP",
            Tag::Ss => "SS",
            Tag::Sw => "SW",
            Tag::Va => "VA",
            Tag::Vcn => "VCN",
            Tag::Vcp => "VCP",
            Tag::Vv => "VV",
            Tag::Vx => "VX",
            Tag::Xpn => "XPN",
            Tag::Xr => "XR",
            Tag::Xsa => "XSA",
            Tag::Xsn => "XSN",
            Tag::Xsv => "XSV",
        }
    }
}

/// Whether the analyzer found a morpheme's surface form in its vocabulary.
#[derive(Clone, Copy, Debug, PartialEq, Eq, Structural)]
pub enum OutOfVocab {
    InWordEmbedding,
    OutOfVocab,
    InCustomDict,
    InBuiltinDict,
}

impl OutOfVocab {
    pub open spec fn spec_name(self) -> Seq<char> {
        match self {
            OutOfVocab::InWordEmbedding => "IN_WORD_EMBEDDING"@,
            OutOfVocab::OutOfVocab => "OUT_OF_VOCAB"@,
            OutOfVocab::InCustomDict => "IN_CUSTOM_DICT"@,
            OutOfVocab::InBuiltinDict => "IN_BUILTIN_DICT"@,
        }
    }

    pub fn name(&self) -> (r: &'static str)
        ensures
            r@ == self.spec_name(),
    {
        match self {
            OutOfVocab::InWordEmbedding => "IN_WORD_EMBEDDING",
            OutOfVocab::OutOfVocab => "OUT_OF_VOCAB",
            OutOfVocab::InCustomDict => "IN_CUSTOM_DICT",
            OutOfVocab::InBuiltinDict => "IN_BUILTIN_DICT",
        }
    }
}

} // verus!
