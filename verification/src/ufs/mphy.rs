//! M-PHY layer of the simulated UFS stack.
use vstd::prelude::*;
use crate::text::prefixed;

verus! {

#[derive(Debug)]
pub struct MphyInstance {
    pub base_address: u64,
}

#[derive(Debug)]
pub enum MphyError {
    InitializationError,
    LinkUpError,
    Other(String),
}

impl MphyError {
    /// What the error says.
    pub open spec fn text(self) -> Seq<char> {
        match self {
            MphyError::InitializationError => "M-PHY başlatma hatası"@,
            MphyError::LinkUpError => "M-PHY bağlantı hatası"@,
            MphyError::Other(s) => "Diğer M-PHY hatası: "@ + s@,
        }
    }

    /// The error's message.
    pub fn message(&self) -> (r: String)
        ensures
            r@ == self.text(),
    {
        match self {
            MphyError::InitializationError => String::from_str("M-PHY başlatma hatası"),
            MphyError::LinkUpError => String::from_str("M-PHY bağlantı hatası"),
            MphyError::Other(s) => prefixed("Diğer M-PHY hatası: ", s.as_str()),
        }
    }
}

impl MphyInstance {
    pub fn new(base_address: u64) -> (r: Result<Self, MphyError>)
        ensures
            r matches Ok(m) && m.base_address == base_address,
    {
        Ok(MphyInstance { base_address })
    }
}

} // verus!
