pub mod bullet;
pub mod enemy;
pub mod player;
pub mod vector;
