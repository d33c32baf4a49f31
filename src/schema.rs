use vstd::prelude::*;

use crate::error::{FilterError, FilterErrorView};
use crate::text::same_text;

verus! {

/// The attributes of a supplier record.
#[derive(Debug, Clone, Copy, PartialEq, Eq, Structural)]
pub enum SupplierField {
    ContactPerson,
    Wechat,
    Phone,
    Quantity,
    Location,
    Price,
    BandwidthPrice,
    StoragePrice,
    MinContractPeriod,
    BreachPenalties,
    PaymentTerms,
    ServerName,
    ServerConfig,
    RentalModel,
    NetworkingCategory,
}

/// Whether a field holds text or a number.
#[derive(Debug, Clone, Copy, PartialEq, Eq, Structural)]
pub enum TypeClass {
    Text,
    Numeric,
}

/// The field whose column is named `name`, if any.
pub open spec fn field_named(name: Seq<char>) -> Option<SupplierField> {
    if name == "contact"@ {
        Some(SupplierField::ContactPerson)
    } else if name == "wechat"@ {
        Some(SupplierField::Wechat)
    } else if name == "phone"@ {
        Some(SupplierField::Phone)
    } else if name == "quantity"@ {
        Some(SupplierField::Quantity)
    } else if name == "location"@ {
        Some(SupplierField::Location)
    } else if name == "price"@ {
        Some(SupplierField::Price)
    } else if name == "bandwidth_price"@ {
        Some(SupplierField::BandwidthPrice)
    } else if name == "storage_price"@ {
        Some(SupplierField::StoragePrice)
    } else if name == "min_contract_period"@ {
        Some(SupplierField::MinContractPeriod)
    } else if name == "breach_penalties"@ {
        Some(SupplierField::BreachPenalties)
    } else if name == "payment_terms"@ {
        Some(SupplierField::PaymentTerms)
    } else if name == "server_name"@ {
        Some(SupplierField::ServerName)
    } else if name == "server_config"@ {
        Some(SupplierField::ServerConfig)
    } else if name == "rental_model"@ {
        Some(SupplierField::RentalModel)
    } else if name == "networking_category"@ {
        Some(SupplierField::NetworkingCategory)
    } else {
        None
    }
}

impl SupplierField {
    /// All fields, in the order of the record's columns.
    pub open spec fn all() -> Seq<SupplierField> {
        seq![
            SupplierField::ContactPerson,
            SupplierField::Wechat,
            SupplierField::Phone,
            SupplierField::Quantity,
            SupplierField::Location,
            SupplierField::Price,
            SupplierField::BandwidthPrice,
            SupplierField::StoragePrice,
            SupplierField::MinContractPeriod,
            SupplierField::BreachPenalties,
            SupplierField::PaymentTerms,
            SupplierField::ServerName,
            SupplierField::ServerConfig,
            SupplierField::RentalModel,
            SupplierField::NetworkingCategory,
        ]
    }

    pub open spec fn spec_type_class(self) -> TypeClass {
        match self {
            SupplierField::Quantity
            | SupplierField::Price
            | SupplierField::BandwidthPrice
            | SupplierField::StoragePrice => TypeClass::Numeric,
            _ => TypeClass::Text,
        }
    }

    pub open spec fn spec_column(self) -> Seq<char> {
        match self {
            SupplierField::ContactPerson => "contact"@,
            SupplierField::Wechat => "wechat"@,
            SupplierField::Phone => "phone"@,
            SupplierField::Quantity => "quantity"@,
            SupplierField::Location => "location"@,
            SupplierField::Price => "price"@,
            SupplierField::BandwidthPrice => "bandwidth_price"@,
            SupplierField::StoragePrice => "storage_price"@,
            SupplierField::MinContractPeriod => "min_contract_period"@,
            SupplierField::BreachPenalties => "breach_penalties"@,
            SupplierField::PaymentTerms => "payment_terms"@,
            SupplierField::ServerName => "server_name"@,
            SupplierField::ServerConfig => "server_config"@,
            SupplierField::RentalModel => "rental_model"@,
            SupplierField::NetworkingCategory => "networking_category"@,
        }
    }

    /// The type class of the field.
    pub fn type_class(&self) -> (r: TypeClass)
        ensures
            r == self.spec_type_class(),
    {
        match self {
            SupplierField::Quantity
            | SupplierField::Price
            | SupplierField::BandwidthPrice
            | SupplierField::StoragePrice => TypeClass::Numeric,
            _ => TypeClass::Text,
        }
    }

    /// Whether the field holds text.
    pub fn is_string(&self) -> (r: bool)
        ensures
            r == (self.spec_type_class() == TypeClass::Text),
    {
        match self.type_class() {
            TypeClass::Text => true,
            TypeClass::Numeric => false,
        }
    }

    /// Whether the field holds a number.
    pub fn is_numeric(&self) -> (r: bool)
        ensures
            r == (self.spec_type_class() == TypeClass::Numeric),
    {
        match self.type_class() {
            TypeClass::Text => false,
            TypeClass::Numeric => true,
        }
    }

    /// The column that stores the field; also its external name.
    pub fn column_name(&self) -> (r: &'static str)
        ensures
            r@ == self.spec_column(),
    {
        match self {
            SupplierField::ContactPerson => "contact",
            SupplierField::Wechat => "wechat",
            SupplierField::Phone => "phone",
            SupplierField::Quantity => "quantity",
            SupplierField::Location => "location",
            SupplierField::Price => "price",
            SupplierField::BandwidthPrice => "bandwidth_price",
            SupplierField::StoragePrice => "storage_price",
            SupplierField::MinContractPeriod => "min_contract_period",
            SupplierField::BreachPenalties => "breach_penalties",
            SupplierField::PaymentTerms => "payment_terms",
            SupplierField::ServerName => "server_name",
            SupplierField::ServerConfig => "server_config",
            SupplierField::RentalModel => "rental_model",
            SupplierField::NetworkingCategory => "networking_category",
        }
    }

    /// Resolves an external field name; fails with `UnknownField` when no
    /// field has that name.
    pub fn from_str(name: &str) -> (r: Result<SupplierField, FilterError>)
        ensures
            match r {
                Ok(f) => field_named(name@) == Some(f),
                Err(e) => field_named(name@) is None && e@ == FilterErrorView::UnknownField {
                    name: name@,
                },
            },
    {
        if same_text(name, "contact") {
            Ok(SupplierField::ContactPerson)
        } else if same_text(name, "wechat") {
            Ok(SupplierField::Wechat)
        } else if same_text(name, "phone") {
            Ok(SupplierField::Phone)
        } else if same_text(name, "quantity") {
            Ok(SupplierField::Quantity)
        } else if same_text(name, "location") {
            Ok(SupplierField::Location)
        } else if same_text(name, "price") {
            Ok(SupplierField::Price)
        } else if same_text(name, "bandwidth_price") {
            Ok(SupplierField::BandwidthPrice)
        } else if same_text(name, "storage_price") {
            Ok(SupplierField::StoragePrice)
        } else if same_text(name, "min_contract_period") {
            Ok(SupplierField::MinContractPeriod)
        } else if same_text(name, "breach_penalties") {
            Ok(SupplierField::BreachPenalties)
        } else if same_text(name, "payment_terms") {
            Ok(SupplierField::PaymentTerms)
        } else if same_text(name, "server_name") {
            Ok(SupplierField::ServerName)
        } else if same_text(name, "server_config") {
            Ok(SupplierField::ServerConfig)
        } else if same_text(name, "rental_model") {
            Ok(SupplierField::RentalModel)
        } else if same_text(name, "networking_category") {
            Ok(SupplierField::NetworkingCategory)
        } else {
            Err(FilterError::UnknownField { name: String::from_str(name) })
        }
    }
}

impl SupplierField {
    pub open spec fn spec_name(self) -> Seq<char> {
        match self {
            SupplierField::ContactPerson => "ContactPerson"@,
            SupplierField::Wechat => "Wechat"@,
            SupplierField::Phone => "Phone"@,
            SupplierField::Quantity => "Quantity"@,
            SupplierField::Location => "Location"@,
            SupplierField::Price => "Price"@,
            SupplierField::BandwidthPrice => "BandwidthPrice"@,
            SupplierField::StoragePrice => "StoragePrice"@,
            SupplierField::MinContractPeriod => "MinContractPeriod"@,
            SupplierField::BreachPenalties => "BreachPenalties"@,
            SupplierField::PaymentTerms => "PaymentTerms"@,
            SupplierField::ServerName => "ServerName"@,
            SupplierField::ServerConfig => "ServerConfig"@,
            SupplierField::RentalModel => "RentalModel"@,
            SupplierField::NetworkingCategory => "NetworkingCategory"@,
        }
    }

    /// The field's name as it appears in diagnostics.
    pub fn name(&self) -> (r: &'static str)
        ensures
            r@ == self.spec_name(),
    {
        match self {
            SupplierField::ContactPerson => "ContactPerson",
            SupplierField::Wechat => "Wechat",
            SupplierField::Phone => "Phone",
            SupplierField::Quantity => "Quantity",
            SupplierField::Location => "Location",
            SupplierField::Price => "Price",
            SupplierField::BandwidthPrice => "BandwidthPrice",
            SupplierField::StoragePrice => "StoragePrice",
            SupplierField::MinContractPeriod => "MinContractPeriod",
            SupplierField::BreachPenalties => "BreachPenalties",
            SupplierField::PaymentTerms => "PaymentTerms",
            SupplierField::ServerName => "ServerName",
            SupplierField::ServerConfig => "ServerConfig",
            SupplierField::RentalModel => "RentalModel",
            SupplierField::NetworkingCategory => "NetworkingCategory",
        }
    }
}

impl SupplierField {
    /// All fields, in the order of the record's columns.
    pub fn all_fields() -> (r: Vec<SupplierField>)
        ensures
            r@ == SupplierField::all(),
    {
        let r = vec![
            SupplierField::ContactPerson,
            SupplierField::Wechat,
            SupplierField::Phone,
            SupplierField::Quantity,
            SupplierField::Location,
            SupplierField::Price,
            SupplierField::BandwidthPrice,
            SupplierField::StoragePrice,
            SupplierField::MinContractPeriod,
            SupplierField::BreachPenalties,
            SupplierField::PaymentTerms,
            SupplierField::ServerName,
            SupplierField::ServerConfig,
            SupplierField::RentalModel,
            SupplierField::NetworkingCategory,
        ];
        assert(r@ =~= SupplierField::all());
        r
    }
}

} // verus!
