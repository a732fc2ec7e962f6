pub mod agent;
pub mod animal;
pub mod bias;
pub mod layer;
pub mod linear;
pub mod random;
pub mod recurrent;
pub mod resize;
pub mod scalar;
pub mod tanh;
pub mod variable;
pub mod vector;
